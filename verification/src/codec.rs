//! How each payload type crosses a door: the value it encodes as, and what
//! decoding a value gives back.
//!
//! Records list their fields in declaration order; choices are their tag as
//! text; unions are a record whose `kind` field carries the arm's tag, then
//! the arm's fields. [`Target`] also reads the spelling a person writes,
//! `path:line` or `path:first-last`, and still encodes as its tagged record.

use vstd::prelude::*;

use crate::request::{AcceptHow, Actor, AnchorId, AskId, AskOption, Binding, BlockId, BufferId, CaseChange, ChangeId, CharRange, CheckpointId, Completion, Diagnostic, DiffMode, Direction, DiskExit, Edit, EditMode, FileEdits, FileGroup, FileSpan, FoldState, GrantScope, GroupId, Grouping, HunkId, InboxId, KeySeq, LanguageId, LanguageSpec, Motion, PaneId, PaneKind, PaneRef, Position, PromptKind, RegionFilter, RegionId, RegionSpec, RegisterName, ScrollRequest, SeamKind, Seek, SelectionKind, Sequence, Severity, Signature, SourceId, Span, SurfaceId, Target, TextObject, ThemeSlug, ThreadId, Tier, ToolCallId, TurnId, WatchId, spec_target_from_text, target_from_text};
use crate::text_util::str_eq;
use crate::value::{
    error_view, field_unwire, lemma_distinct_fields, lemma_field_value_view, lemma_value_view, names_distinct,
    names_view, record_from, record_of, shape, value_view, Args, Value, ValueV, Wire, WireError, WireErrorV,
};

verus! {
impl Wire for BufferId {
    open spec fn wire(&self) -> ValueV {
        self.0.wire()
    }

    open spec fn fits(&self) -> bool {
        self.0.fits()
    }

    open spec fn unwire(v: ValueV) -> Result<ValueV, WireErrorV> {
        <u64 as Wire>::unwire(v)
    }

    open spec fn optional() -> bool {
        false
    }

    fn to_value(&self) -> (r: Value) {
        self.0.to_value()
    }

    fn from_value(v: &Value) -> (r: Result<Self, WireError>) {
        match <u64 as Wire>::from_value(v) {
            Ok(n) => Ok(BufferId(n)),
            Err(e) => Err(e),
        }
    }

    fn is_optional() -> (r: bool) {
        false
    }

    proof fn lemma_wire_round_trip(x: Self) {
        <u64 as Wire>::lemma_wire_round_trip(x.0);
    }
}
impl Wire for PaneId {
    open spec fn wire(&self) -> ValueV {
        self.0.wire()
    }

    open spec fn fits(&self) -> bool {
        self.0.fits()
    }

    open spec fn unwire(v: ValueV) -> Result<ValueV, WireErrorV> {
        <u64 as Wire>::unwire(v)
    }

    open spec fn optional() -> bool {
        false
    }

    fn to_value(&self) -> (r: Value) {
        self.0.to_value()
    }

    fn from_value(v: &Value) -> (r: Result<Self, WireError>) {
        match <u64 as Wire>::from_value(v) {
            Ok(n) => Ok(PaneId(n)),
            Err(e) => Err(e),
        }
    }

    fn is_optional() -> (r: bool) {
        false
    }

    proof fn lemma_wire_round_trip(x: Self) {
        <u64 as Wire>::lemma_wire_round_trip(x.0);
    }
}
impl Wire for RegionId {
    open spec fn wire(&self) -> ValueV {
        self.0.wire()
    }

    open spec fn fits(&self) -> bool {
        self.0.fits()
    }

    open spec fn unwire(v: ValueV) -> Result<ValueV, WireErrorV> {
        <u64 as Wire>::unwire(v)
    }

    open spec fn optional() -> bool {
        false
    }

    fn to_value(&self) -> (r: Value) {
        self.0.to_value()
    }

    fn from_value(v: &Value) -> (r: Result<Self, WireError>) {
        match <u64 as Wire>::from_value(v) {
            Ok(n) => Ok(RegionId(n)),
            Err(e) => Err(e),
        }
    }

    fn is_optional() -> (r: bool) {
        false
    }

    proof fn lemma_wire_round_trip(x: Self) {
        <u64 as Wire>::lemma_wire_round_trip(x.0);
    }
}
impl Wire for AnchorId {
    open spec fn wire(&self) -> ValueV {
        self.0.wire()
    }

    open spec fn fits(&self) -> bool {
        self.0.fits()
    }

    open spec fn unwire(v: ValueV) -> Result<ValueV, WireErrorV> {
        <u64 as Wire>::unwire(v)
    }

    open spec fn optional() -> bool {
        false
    }

    fn to_value(&self) -> (r: Value) {
        self.0.to_value()
    }

    fn from_value(v: &Value) -> (r: Result<Self, WireError>) {
        match <u64 as Wire>::from_value(v) {
            Ok(n) => Ok(AnchorId(n)),
            Err(e) => Err(e),
        }
    }

    fn is_optional() -> (r: bool) {
        false
    }

    proof fn lemma_wire_round_trip(x: Self) {
        <u64 as Wire>::lemma_wire_round_trip(x.0);
    }
}
impl Wire for ThreadId {
    open spec fn wire(&self) -> ValueV {
        self.0.wire()
    }

    open spec fn fits(&self) -> bool {
        self.0.fits()
    }

    open spec fn unwire(v: ValueV) -> Result<ValueV, WireErrorV> {
        <u64 as Wire>::unwire(v)
    }

    open spec fn optional() -> bool {
        false
    }

    fn to_value(&self) -> (r: Value) {
        self.0.to_value()
    }

    fn from_value(v: &Value) -> (r: Result<Self, WireError>) {
        match <u64 as Wire>::from_value(v) {
            Ok(n) => Ok(ThreadId(n)),
            Err(e) => Err(e),
        }
    }

    fn is_optional() -> (r: bool) {
        false
    }

    proof fn lemma_wire_round_trip(x: Self) {
        <u64 as Wire>::lemma_wire_round_trip(x.0);
    }
}
impl Wire for WatchId {
    open spec fn wire(&self) -> ValueV {
        self.0.wire()
    }

    open spec fn fits(&self) -> bool {
        self.0.fits()
    }

    open spec fn unwire(v: ValueV) -> Result<ValueV, WireErrorV> {
        <u64 as Wire>::unwire(v)
    }

    open spec fn optional() -> bool {
        false
    }

    fn to_value(&self) -> (r: Value) {
        self.0.to_value()
    }

    fn from_value(v: &Value) -> (r: Result<Self, WireError>) {
        match <u64 as Wire>::from_value(v) {
            Ok(n) => Ok(WatchId(n)),
            Err(e) => Err(e),
        }
    }

    fn is_optional() -> (r: bool) {
        false
    }

    proof fn lemma_wire_round_trip(x: Self) {
        <u64 as Wire>::lemma_wire_round_trip(x.0);
    }
}
impl Wire for AskId {
    open spec fn wire(&self) -> ValueV {
        self.0.wire()
    }

    open spec fn fits(&self) -> bool {
        self.0.fits()
    }

    open spec fn unwire(v: ValueV) -> Result<ValueV, WireErrorV> {
        <u64 as Wire>::unwire(v)
    }

    open spec fn optional() -> bool {
        false
    }

    fn to_value(&self) -> (r: Value) {
        self.0.to_value()
    }

    fn from_value(v: &Value) -> (r: Result<Self, WireError>) {
        match <u64 as Wire>::from_value(v) {
            Ok(n) => Ok(AskId(n)),
            Err(e) => Err(e),
        }
    }

    fn is_optional() -> (r: bool) {
        false
    }

    proof fn lemma_wire_round_trip(x: Self) {
        <u64 as Wire>::lemma_wire_round_trip(x.0);
    }
}
impl Wire for HunkId {
    open spec fn wire(&self) -> ValueV {
        self.0.wire()
    }

    open spec fn fits(&self) -> bool {
        self.0.fits()
    }

    open spec fn unwire(v: ValueV) -> Result<ValueV, WireErrorV> {
        <u64 as Wire>::unwire(v)
    }

    open spec fn optional() -> bool {
        false
    }

    fn to_value(&self) -> (r: Value) {
        self.0.to_value()
    }

    fn from_value(v: &Value) -> (r: Result<Self, WireError>) {
        match <u64 as Wire>::from_value(v) {
            Ok(n) => Ok(HunkId(n)),
            Err(e) => Err(e),
        }
    }

    fn is_optional() -> (r: bool) {
        false
    }

    proof fn lemma_wire_round_trip(x: Self) {
        <u64 as Wire>::lemma_wire_round_trip(x.0);
    }
}
impl Wire for BlockId {
    open spec fn wire(&self) -> ValueV {
        self.0.wire()
    }

    open spec fn fits(&self) -> bool {
        self.0.fits()
    }

    open spec fn unwire(v: ValueV) -> Result<ValueV, WireErrorV> {
        <u64 as Wire>::unwire(v)
    }

    open spec fn optional() -> bool {
        false
    }

    fn to_value(&self) -> (r: Value) {
        self.0.to_value()
    }

    fn from_value(v: &Value) -> (r: Result<Self, WireError>) {
        match <u64 as Wire>::from_value(v) {
            Ok(n) => Ok(BlockId(n)),
            Err(e) => Err(e),
        }
    }

    fn is_optional() -> (r: bool) {
        false
    }

    proof fn lemma_wire_round_trip(x: Self) {
        <u64 as Wire>::lemma_wire_round_trip(x.0);
    }
}
impl Wire for GroupId {
    open spec fn wire(&self) -> ValueV {
        self.0.wire()
    }

    open spec fn fits(&self) -> bool {
        self.0.fits()
    }

    open spec fn unwire(v: ValueV) -> Result<ValueV, WireErrorV> {
        <u64 as Wire>::unwire(v)
    }

    open spec fn optional() -> bool {
        false
    }

    fn to_value(&self) -> (r: Value) {
        self.0.to_value()
    }

    fn from_value(v: &Value) -> (r: Result<Self, WireError>) {
        match <u64 as Wire>::from_value(v) {
            Ok(n) => Ok(GroupId(n)),
            Err(e) => Err(e),
        }
    }

    fn is_optional() -> (r: bool) {
        false
    }

    proof fn lemma_wire_round_trip(x: Self) {
        <u64 as Wire>::lemma_wire_round_trip(x.0);
    }
}
impl Wire for InboxId {
    open spec fn wire(&self) -> ValueV {
        self.0.wire()
    }

    open spec fn fits(&self) -> bool {
        self.0.fits()
    }

    open spec fn unwire(v: ValueV) -> Result<ValueV, WireErrorV> {
        <u64 as Wire>::unwire(v)
    }

    open spec fn optional() -> bool {
        false
    }

    fn to_value(&self) -> (r: Value) {
        self.0.to_value()
    }

    fn from_value(v: &Value) -> (r: Result<Self, WireError>) {
        match <u64 as Wire>::from_value(v) {
            Ok(n) => Ok(InboxId(n)),
            Err(e) => Err(e),
        }
    }

    fn is_optional() -> (r: bool) {
        false
    }

    proof fn lemma_wire_round_trip(x: Self) {
        <u64 as Wire>::lemma_wire_round_trip(x.0);
    }
}
impl Wire for TurnId {
    open spec fn wire(&self) -> ValueV {
        self.0.wire()
    }

    open spec fn fits(&self) -> bool {
        self.0.fits()
    }

    open spec fn unwire(v: ValueV) -> Result<ValueV, WireErrorV> {
        <u64 as Wire>::unwire(v)
    }

    open spec fn optional() -> bool {
        false
    }

    fn to_value(&self) -> (r: Value) {
        self.0.to_value()
    }

    fn from_value(v: &Value) -> (r: Result<Self, WireError>) {
        match <u64 as Wire>::from_value(v) {
            Ok(n) => Ok(TurnId(n)),
            Err(e) => Err(e),
        }
    }

    fn is_optional() -> (r: bool) {
        false
    }

    proof fn lemma_wire_round_trip(x: Self) {
        <u64 as Wire>::lemma_wire_round_trip(x.0);
    }
}
impl Wire for ToolCallId {
    open spec fn wire(&self) -> ValueV {
        self.0.wire()
    }

    open spec fn fits(&self) -> bool {
        self.0.fits()
    }

    open spec fn unwire(v: ValueV) -> Result<ValueV, WireErrorV> {
        <u64 as Wire>::unwire(v)
    }

    open spec fn optional() -> bool {
        false
    }

    fn to_value(&self) -> (r: Value) {
        self.0.to_value()
    }

    fn from_value(v: &Value) -> (r: Result<Self, WireError>) {
        match <u64 as Wire>::from_value(v) {
            Ok(n) => Ok(ToolCallId(n)),
            Err(e) => Err(e),
        }
    }

    fn is_optional() -> (r: bool) {
        false
    }

    proof fn lemma_wire_round_trip(x: Self) {
        <u64 as Wire>::lemma_wire_round_trip(x.0);
    }
}
impl Wire for CheckpointId {
    open spec fn wire(&self) -> ValueV {
        self.0.wire()
    }

    open spec fn fits(&self) -> bool {
        self.0.fits()
    }

    open spec fn unwire(v: ValueV) -> Result<ValueV, WireErrorV> {
        <u64 as Wire>::unwire(v)
    }

    open spec fn optional() -> bool {
        false
    }

    fn to_value(&self) -> (r: Value) {
        self.0.to_value()
    }

    fn from_value(v: &Value) -> (r: Result<Self, WireError>) {
        match <u64 as Wire>::from_value(v) {
            Ok(n) => Ok(CheckpointId(n)),
            Err(e) => Err(e),
        }
    }

    fn is_optional() -> (r: bool) {
        false
    }

    proof fn lemma_wire_round_trip(x: Self) {
        <u64 as Wire>::lemma_wire_round_trip(x.0);
    }
}
impl Wire for SourceId {
    open spec fn wire(&self) -> ValueV {
        self.0.wire()
    }

    open spec fn fits(&self) -> bool {
        true
    }

    open spec fn unwire(v: ValueV) -> Result<ValueV, WireErrorV> {
        <String as Wire>::unwire(v)
    }

    open spec fn optional() -> bool {
        false
    }

    fn to_value(&self) -> (r: Value) {
        self.0.to_value()
    }

    fn from_value(v: &Value) -> (r: Result<Self, WireError>) {
        match <String as Wire>::from_value(v) {
            Ok(s) => Ok(SourceId(s)),
            Err(e) => Err(e),
        }
    }

    fn is_optional() -> (r: bool) {
        false
    }

    proof fn lemma_wire_round_trip(x: Self) {
    }
}
impl Wire for LanguageId {
    open spec fn wire(&self) -> ValueV {
        self.0.wire()
    }

    open spec fn fits(&self) -> bool {
        true
    }

    open spec fn unwire(v: ValueV) -> Result<ValueV, WireErrorV> {
        <String as Wire>::unwire(v)
    }

    open spec fn optional() -> bool {
        false
    }

    fn to_value(&self) -> (r: Value) {
        self.0.to_value()
    }

    fn from_value(v: &Value) -> (r: Result<Self, WireError>) {
        match <String as Wire>::from_value(v) {
            Ok(s) => Ok(LanguageId(s)),
            Err(e) => Err(e),
        }
    }

    fn is_optional() -> (r: bool) {
        false
    }

    proof fn lemma_wire_round_trip(x: Self) {
    }
}
impl Wire for ThemeSlug {
    open spec fn wire(&self) -> ValueV {
        self.0.wire()
    }

    open spec fn fits(&self) -> bool {
        true
    }

    open spec fn unwire(v: ValueV) -> Result<ValueV, WireErrorV> {
        <String as Wire>::unwire(v)
    }

    open spec fn optional() -> bool {
        false
    }

    fn to_value(&self) -> (r: Value) {
        self.0.to_value()
    }

    fn from_value(v: &Value) -> (r: Result<Self, WireError>) {
        match <String as Wire>::from_value(v) {
            Ok(s) => Ok(ThemeSlug(s)),
            Err(e) => Err(e),
        }
    }

    fn is_optional() -> (r: bool) {
        false
    }

    proof fn lemma_wire_round_trip(x: Self) {
    }
}
impl Wire for SurfaceId {
    open spec fn wire(&self) -> ValueV {
        self.0.wire()
    }

    open spec fn fits(&self) -> bool {
        true
    }

    open spec fn unwire(v: ValueV) -> Result<ValueV, WireErrorV> {
        <String as Wire>::unwire(v)
    }

    open spec fn optional() -> bool {
        false
    }

    fn to_value(&self) -> (r: Value) {
        self.0.to_value()
    }

    fn from_value(v: &Value) -> (r: Result<Self, WireError>) {
        match <String as Wire>::from_value(v) {
            Ok(s) => Ok(SurfaceId(s)),
            Err(e) => Err(e),
        }
    }

    fn is_optional() -> (r: bool) {
        false
    }

    proof fn lemma_wire_round_trip(x: Self) {
    }
}
impl Wire for ChangeId {
    open spec fn wire(&self) -> ValueV {
        self.0.wire()
    }

    open spec fn fits(&self) -> bool {
        true
    }

    open spec fn unwire(v: ValueV) -> Result<ValueV, WireErrorV> {
        <String as Wire>::unwire(v)
    }

    open spec fn optional() -> bool {
        false
    }

    fn to_value(&self) -> (r: Value) {
        self.0.to_value()
    }

    fn from_value(v: &Value) -> (r: Result<Self, WireError>) {
        match <String as Wire>::from_value(v) {
            Ok(s) => Ok(ChangeId(s)),
            Err(e) => Err(e),
        }
    }

    fn is_optional() -> (r: bool) {
        false
    }

    proof fn lemma_wire_round_trip(x: Self) {
    }
}
impl Wire for RegisterName {
    open spec fn wire(&self) -> ValueV {
        self.0.wire()
    }

    open spec fn fits(&self) -> bool {
        true
    }

    open spec fn unwire(v: ValueV) -> Result<ValueV, WireErrorV> {
        <String as Wire>::unwire(v)
    }

    open spec fn optional() -> bool {
        false
    }

    fn to_value(&self) -> (r: Value) {
        self.0.to_value()
    }

    fn from_value(v: &Value) -> (r: Result<Self, WireError>) {
        match <String as Wire>::from_value(v) {
            Ok(s) => Ok(RegisterName(s)),
            Err(e) => Err(e),
        }
    }

    fn is_optional() -> (r: bool) {
        false
    }

    proof fn lemma_wire_round_trip(x: Self) {
    }
}
impl Wire for KeySeq {
    open spec fn wire(&self) -> ValueV {
        self.0.wire()
    }

    open spec fn fits(&self) -> bool {
        true
    }

    open spec fn unwire(v: ValueV) -> Result<ValueV, WireErrorV> {
        <String as Wire>::unwire(v)
    }

    open spec fn optional() -> bool {
        false
    }

    fn to_value(&self) -> (r: Value) {
        self.0.to_value()
    }

    fn from_value(v: &Value) -> (r: Result<Self, WireError>) {
        match <String as Wire>::from_value(v) {
            Ok(s) => Ok(KeySeq(s)),
            Err(e) => Err(e),
        }
    }

    fn is_optional() -> (r: bool) {
        false
    }

    proof fn lemma_wire_round_trip(x: Self) {
    }
}
impl Wire for Position {
    open spec fn wire(&self) -> ValueV {
        record_of(seq![("line"@, self.line.wire()), ("column"@, self.column.wire())])
    }

    open spec fn fits(&self) -> bool {
        self.line.fits() && self.column.fits()
    }

    open spec fn unwire(v: ValueV) -> Result<ValueV, WireErrorV> {
        match v {
            ValueV::Record(rec) => match field_unwire::<u32>(rec, "line"@) {
                    Err(e) => Err(e),
                    Ok(w0) =>                     match field_unwire::<u32>(rec, "column"@) {
                        Err(e) => Err(e),
                        Ok(w1) => Ok(record_of(seq![("line"@, w0), ("column"@, w1)])),
                    },
                },
            _ => Err(shape("record"@)),
        }
    }

    open spec fn optional() -> bool {
        false
    }

    fn to_value(&self) -> (r: Value) {
        let mut f: Vec<(&'static str, Value)> = Vec::new();
        f.push(("line", self.line.to_value()));
        f.push(("column", self.column.to_value()));
        proof {
            assert(crate::value::named_view(f@) =~= seq![("line"@, self.line.wire()), ("column"@, self.column.wire())]);
        }
        record_from(f)
    }

    fn from_value(v: &Value) -> (r: Result<Self, WireError>) {
        proof {
            lemma_value_view(*v);
        }
        match v {
            Value::Record(a) => {
                let line = match a.field::<u32>("line") {
                    Ok(x) => x,
                    Err(e) => return Err(e),
                };
                let column = match a.field::<u32>("column") {
                    Ok(x) => x,
                    Err(e) => return Err(e),
                };
                Ok(Position { line, column })
            },
            _ => Err(WireError::Shape { expected: "record" }),
        }
    }

    fn is_optional() -> (r: bool) {
        false
    }

    proof fn lemma_wire_round_trip(x: Self) {
        reveal_strlit("column");
        reveal_strlit("line");
        let f = seq![("line"@, x.line.wire()), ("column"@, x.column.wire())];
        assert forall|i: int, j: int| 0 <= i < j < 2 implies f[i].0 != f[j].0 by {
                if i == 0 && j == 1 {
                    assert("line"@[0] != "column"@[0]);
                }
        }
        assert(names_distinct(f));
        lemma_distinct_fields(f);
        assert(f[0].0 == "line"@);
        <u32 as Wire>::lemma_wire_round_trip(x.line);
        assert(f[1].0 == "column"@);
        <u32 as Wire>::lemma_wire_round_trip(x.column);
    }
}
impl Wire for Span {
    open spec fn wire(&self) -> ValueV {
        record_of(seq![("start"@, self.start.wire()), ("end"@, self.end.wire())])
    }

    open spec fn fits(&self) -> bool {
        self.start.fits() && self.end.fits()
    }

    open spec fn unwire(v: ValueV) -> Result<ValueV, WireErrorV> {
        match v {
            ValueV::Record(rec) => match field_unwire::<Position>(rec, "start"@) {
                    Err(e) => Err(e),
                    Ok(w0) =>                     match field_unwire::<Position>(rec, "end"@) {
                        Err(e) => Err(e),
                        Ok(w1) => Ok(record_of(seq![("start"@, w0), ("end"@, w1)])),
                    },
                },
            _ => Err(shape("record"@)),
        }
    }

    open spec fn optional() -> bool {
        false
    }

    fn to_value(&self) -> (r: Value) {
        let mut f: Vec<(&'static str, Value)> = Vec::new();
        f.push(("start", self.start.to_value()));
        f.push(("end", self.end.to_value()));
        proof {
            assert(crate::value::named_view(f@) =~= seq![("start"@, self.start.wire()), ("end"@, self.end.wire())]);
        }
        record_from(f)
    }

    fn from_value(v: &Value) -> (r: Result<Self, WireError>) {
        proof {
            lemma_value_view(*v);
        }
        match v {
            Value::Record(a) => {
                let start = match a.field::<Position>("start") {
                    Ok(x) => x,
                    Err(e) => return Err(e),
                };
                let end = match a.field::<Position>("end") {
                    Ok(x) => x,
                    Err(e) => return Err(e),
                };
                Ok(Span { start, end })
            },
            _ => Err(WireError::Shape { expected: "record" }),
        }
    }

    fn is_optional() -> (r: bool) {
        false
    }

    proof fn lemma_wire_round_trip(x: Self) {
        reveal_strlit("end");
        reveal_strlit("start");
        let f = seq![("start"@, x.start.wire()), ("end"@, x.end.wire())];
        assert forall|i: int, j: int| 0 <= i < j < 2 implies f[i].0 != f[j].0 by {
                if i == 0 && j == 1 {
                    assert("start"@[0] != "end"@[0]);
                }
        }
        assert(names_distinct(f));
        lemma_distinct_fields(f);
        assert(f[0].0 == "start"@);
        <Position as Wire>::lemma_wire_round_trip(x.start);
        assert(f[1].0 == "end"@);
        <Position as Wire>::lemma_wire_round_trip(x.end);
    }
}
impl Wire for FileSpan {
    open spec fn wire(&self) -> ValueV {
        record_of(seq![("path"@, self.path.wire()), ("span"@, self.span.wire())])
    }

    open spec fn fits(&self) -> bool {
        self.path.fits() && self.span.fits()
    }

    open spec fn unwire(v: ValueV) -> Result<ValueV, WireErrorV> {
        match v {
            ValueV::Record(rec) => match field_unwire::<String>(rec, "path"@) {
                    Err(e) => Err(e),
                    Ok(w0) =>                     match field_unwire::<Option<Span>>(rec, "span"@) {
                        Err(e) => Err(e),
                        Ok(w1) => Ok(record_of(seq![("path"@, w0), ("span"@, w1)])),
                    },
                },
            _ => Err(shape("record"@)),
        }
    }

    open spec fn optional() -> bool {
        false
    }

    fn to_value(&self) -> (r: Value) {
        let mut f: Vec<(&'static str, Value)> = Vec::new();
        f.push(("path", self.path.to_value()));
        f.push(("span", self.span.to_value()));
        proof {
            assert(crate::value::named_view(f@) =~= seq![("path"@, self.path.wire()), ("span"@, self.span.wire())]);
        }
        record_from(f)
    }

    fn from_value(v: &Value) -> (r: Result<Self, WireError>) {
        proof {
            lemma_value_view(*v);
        }
        match v {
            Value::Record(a) => {
                let path = match a.field::<String>("path") {
                    Ok(x) => x,
                    Err(e) => return Err(e),
                };
                let span = match a.field::<Option<Span>>("span") {
                    Ok(x) => x,
                    Err(e) => return Err(e),
                };
                Ok(FileSpan { path, span })
            },
            _ => Err(WireError::Shape { expected: "record" }),
        }
    }

    fn is_optional() -> (r: bool) {
        false
    }

    proof fn lemma_wire_round_trip(x: Self) {
        reveal_strlit("path");
        reveal_strlit("span");
        let f = seq![("path"@, x.path.wire()), ("span"@, x.span.wire())];
        assert forall|i: int, j: int| 0 <= i < j < 2 implies f[i].0 != f[j].0 by {
                if i == 0 && j == 1 {
                    assert("path"@[0] != "span"@[0]);
                }
        }
        assert(names_distinct(f));
        lemma_distinct_fields(f);
        assert(f[0].0 == "path"@);
        <String as Wire>::lemma_wire_round_trip(x.path);
        assert(f[1].0 == "span"@);
        <Option<Span> as Wire>::lemma_wire_round_trip(x.span);
    }
}
impl Wire for RegionSpec {
    open spec fn wire(&self) -> ValueV {
        record_of(seq![("path"@, self.path.wire()), ("span"@, self.span.wire()), ("author"@, self.author.wire())])
    }

    open spec fn fits(&self) -> bool {
        self.path.fits() && self.span.fits() && self.author.fits()
    }

    open spec fn unwire(v: ValueV) -> Result<ValueV, WireErrorV> {
        match v {
            ValueV::Record(rec) => match field_unwire::<String>(rec, "path"@) {
                    Err(e) => Err(e),
                    Ok(w0) =>                     match field_unwire::<Span>(rec, "span"@) {
                        Err(e) => Err(e),
                        Ok(w1) =>                         match field_unwire::<Actor>(rec, "author"@) {
                            Err(e) => Err(e),
                            Ok(w2) => Ok(record_of(seq![("path"@, w0), ("span"@, w1), ("author"@, w2)])),
                        },
                    },
                },
            _ => Err(shape("record"@)),
        }
    }

    open spec fn optional() -> bool {
        false
    }

    fn to_value(&self) -> (r: Value) {
        let mut f: Vec<(&'static str, Value)> = Vec::new();
        f.push(("path", self.path.to_value()));
        f.push(("span", self.span.to_value()));
        f.push(("author", self.author.to_value()));
        proof {
            assert(crate::value::named_view(f@) =~= seq![("path"@, self.path.wire()), ("span"@, self.span.wire()), ("author"@, self.author.wire())]);
        }
        record_from(f)
    }

    fn from_value(v: &Value) -> (r: Result<Self, WireError>) {
        proof {
            lemma_value_view(*v);
        }
        match v {
            Value::Record(a) => {
                let path = match a.field::<String>("path") {
                    Ok(x) => x,
                    Err(e) => return Err(e),
                };
                let span = match a.field::<Span>("span") {
                    Ok(x) => x,
                    Err(e) => return Err(e),
                };
                let author = match a.field::<Actor>("author") {
                    Ok(x) => x,
                    Err(e) => return Err(e),
                };
                Ok(RegionSpec { path, span, author })
            },
            _ => Err(WireError::Shape { expected: "record" }),
        }
    }

    fn is_optional() -> (r: bool) {
        false
    }

    proof fn lemma_wire_round_trip(x: Self) {
        reveal_strlit("author");
        reveal_strlit("path");
        reveal_strlit("span");
        let f = seq![("path"@, x.path.wire()), ("span"@, x.span.wire()), ("author"@, x.author.wire())];
        assert forall|i: int, j: int| 0 <= i < j < 3 implies f[i].0 != f[j].0 by {
                if i == 0 && j == 1 {
                    assert("path"@[0] != "span"@[0]);
                } else if i == 0 && j == 2 {
                    assert("path"@[0] != "author"@[0]);
                } else if i == 1 && j == 2 {
                    assert("span"@[0] != "author"@[0]);
                }
        }
        assert(names_distinct(f));
        lemma_distinct_fields(f);
        assert(f[0].0 == "path"@);
        <String as Wire>::lemma_wire_round_trip(x.path);
        assert(f[1].0 == "span"@);
        <Span as Wire>::lemma_wire_round_trip(x.span);
        assert(f[2].0 == "author"@);
        <Actor as Wire>::lemma_wire_round_trip(x.author);
    }
}
impl Wire for FileGroup {
    open spec fn wire(&self) -> ValueV {
        record_of(seq![("path"@, self.path.wire()), ("spans"@, self.spans.wire()), ("annotation"@, self.annotation.wire())])
    }

    open spec fn fits(&self) -> bool {
        self.path.fits() && self.spans.fits() && self.annotation.fits()
    }

    open spec fn unwire(v: ValueV) -> Result<ValueV, WireErrorV> {
        match v {
            ValueV::Record(rec) => match field_unwire::<String>(rec, "path"@) {
                    Err(e) => Err(e),
                    Ok(w0) =>                     match field_unwire::<Vec<Span>>(rec, "spans"@) {
                        Err(e) => Err(e),
                        Ok(w1) =>                         match field_unwire::<Option<String>>(rec, "annotation"@) {
                            Err(e) => Err(e),
                            Ok(w2) => Ok(record_of(seq![("path"@, w0), ("spans"@, w1), ("annotation"@, w2)])),
                        },
                    },
                },
            _ => Err(shape("record"@)),
        }
    }

    open spec fn optional() -> bool {
        false
    }

    fn to_value(&self) -> (r: Value) {
        let mut f: Vec<(&'static str, Value)> = Vec::new();
        f.push(("path", self.path.to_value()));
        f.push(("spans", self.spans.to_value()));
        f.push(("annotation", self.annotation.to_value()));
        proof {
            assert(crate::value::named_view(f@) =~= seq![("path"@, self.path.wire()), ("spans"@, self.spans.wire()), ("annotation"@, self.annotation.wire())]);
        }
        record_from(f)
    }

    fn from_value(v: &Value) -> (r: Result<Self, WireError>) {
        proof {
            lemma_value_view(*v);
        }
        match v {
            Value::Record(a) => {
                let path = match a.field::<String>("path") {
                    Ok(x) => x,
                    Err(e) => return Err(e),
                };
                let spans = match a.field::<Vec<Span>>("spans") {
                    Ok(x) => x,
                    Err(e) => return Err(e),
                };
                let annotation = match a.field::<Option<String>>("annotation") {
                    Ok(x) => x,
                    Err(e) => return Err(e),
                };
                Ok(FileGroup { path, spans, annotation })
            },
            _ => Err(WireError::Shape { expected: "record" }),
        }
    }

    fn is_optional() -> (r: bool) {
        false
    }

    proof fn lemma_wire_round_trip(x: Self) {
        reveal_strlit("annotation");
        reveal_strlit("path");
        reveal_strlit("spans");
        let f = seq![("path"@, x.path.wire()), ("spans"@, x.spans.wire()), ("annotation"@, x.annotation.wire())];
        assert forall|i: int, j: int| 0 <= i < j < 3 implies f[i].0 != f[j].0 by {
                if i == 0 && j == 1 {
                    assert("path"@[0] != "spans"@[0]);
                } else if i == 0 && j == 2 {
                    assert("path"@[0] != "annotation"@[0]);
                } else if i == 1 && j == 2 {
                    assert("spans"@[0] != "annotation"@[0]);
                }
        }
        assert(names_distinct(f));
        lemma_distinct_fields(f);
        assert(f[0].0 == "path"@);
        <String as Wire>::lemma_wire_round_trip(x.path);
        assert(f[1].0 == "spans"@);
        <Vec<Span> as Wire>::lemma_wire_round_trip(x.spans);
        assert(f[2].0 == "annotation"@);
        <Option<String> as Wire>::lemma_wire_round_trip(x.annotation);
    }
}
impl Wire for AskOption {
    open spec fn wire(&self) -> ValueV {
        record_of(seq![("digit"@, self.digit.wire()), ("label"@, self.label.wire())])
    }

    open spec fn fits(&self) -> bool {
        self.digit.fits() && self.label.fits()
    }

    open spec fn unwire(v: ValueV) -> Result<ValueV, WireErrorV> {
        match v {
            ValueV::Record(rec) => match field_unwire::<u32>(rec, "digit"@) {
                    Err(e) => Err(e),
                    Ok(w0) =>                     match field_unwire::<String>(rec, "label"@) {
                        Err(e) => Err(e),
                        Ok(w1) => Ok(record_of(seq![("digit"@, w0), ("label"@, w1)])),
                    },
                },
            _ => Err(shape("record"@)),
        }
    }

    open spec fn optional() -> bool {
        false
    }

    fn to_value(&self) -> (r: Value) {
        let mut f: Vec<(&'static str, Value)> = Vec::new();
        f.push(("digit", self.digit.to_value()));
        f.push(("label", self.label.to_value()));
        proof {
            assert(crate::value::named_view(f@) =~= seq![("digit"@, self.digit.wire()), ("label"@, self.label.wire())]);
        }
        record_from(f)
    }

    fn from_value(v: &Value) -> (r: Result<Self, WireError>) {
        proof {
            lemma_value_view(*v);
        }
        match v {
            Value::Record(a) => {
                let digit = match a.field::<u32>("digit") {
                    Ok(x) => x,
                    Err(e) => return Err(e),
                };
                let label = match a.field::<String>("label") {
                    Ok(x) => x,
                    Err(e) => return Err(e),
                };
                Ok(AskOption { digit, label })
            },
            _ => Err(WireError::Shape { expected: "record" }),
        }
    }

    fn is_optional() -> (r: bool) {
        false
    }

    proof fn lemma_wire_round_trip(x: Self) {
        reveal_strlit("digit");
        reveal_strlit("label");
        let f = seq![("digit"@, x.digit.wire()), ("label"@, x.label.wire())];
        assert forall|i: int, j: int| 0 <= i < j < 2 implies f[i].0 != f[j].0 by {
                if i == 0 && j == 1 {
                    assert("digit"@[0] != "label"@[0]);
                }
        }
        assert(names_distinct(f));
        lemma_distinct_fields(f);
        assert(f[0].0 == "digit"@);
        <u32 as Wire>::lemma_wire_round_trip(x.digit);
        assert(f[1].0 == "label"@);
        <String as Wire>::lemma_wire_round_trip(x.label);
    }
}
impl Wire for Diagnostic {
    open spec fn wire(&self) -> ValueV {
        record_of(seq![("span"@, self.span.wire()), ("severity"@, self.severity.wire()), ("message"@, self.message.wire()), ("source"@, self.source.wire())])
    }

    open spec fn fits(&self) -> bool {
        self.span.fits() && self.severity.fits() && self.message.fits() && self.source.fits()
    }

    open spec fn unwire(v: ValueV) -> Result<ValueV, WireErrorV> {
        match v {
            ValueV::Record(rec) => match field_unwire::<Span>(rec, "span"@) {
                    Err(e) => Err(e),
                    Ok(w0) =>                     match field_unwire::<Severity>(rec, "severity"@) {
                        Err(e) => Err(e),
                        Ok(w1) =>                         match field_unwire::<String>(rec, "message"@) {
                            Err(e) => Err(e),
                            Ok(w2) =>                             match field_unwire::<Option<String>>(rec, "source"@) {
                                Err(e) => Err(e),
                                Ok(w3) => Ok(record_of(seq![("span"@, w0), ("severity"@, w1), ("message"@, w2), ("source"@, w3)])),
                            },
                        },
                    },
                },
            _ => Err(shape("record"@)),
        }
    }

    open spec fn optional() -> bool {
        false
    }

    fn to_value(&self) -> (r: Value) {
        let mut f: Vec<(&'static str, Value)> = Vec::new();
        f.push(("span", self.span.to_value()));
        f.push(("severity", self.severity.to_value()));
        f.push(("message", self.message.to_value()));
        f.push(("source", self.source.to_value()));
        proof {
            assert(crate::value::named_view(f@) =~= seq![("span"@, self.span.wire()), ("severity"@, self.severity.wire()), ("message"@, self.message.wire()), ("source"@, self.source.wire())]);
        }
        record_from(f)
    }

    fn from_value(v: &Value) -> (r: Result<Self, WireError>) {
        proof {
            lemma_value_view(*v);
        }
        match v {
            Value::Record(a) => {
                let span = match a.field::<Span>("span") {
                    Ok(x) => x,
                    Err(e) => return Err(e),
                };
                let severity = match a.field::<Severity>("severity") {
                    Ok(x) => x,
                    Err(e) => return Err(e),
                };
                let message = match a.field::<String>("message") {
                    Ok(x) => x,
                    Err(e) => return Err(e),
                };
                let source = match a.field::<Option<String>>("source") {
                    Ok(x) => x,
                    Err(e) => return Err(e),
                };
                Ok(Diagnostic { span, severity, message, source })
            },
            _ => Err(WireError::Shape { expected: "record" }),
        }
    }

    fn is_optional() -> (r: bool) {
        false
    }

    proof fn lemma_wire_round_trip(x: Self) {
        reveal_strlit("message");
        reveal_strlit("severity");
        reveal_strlit("source");
        reveal_strlit("span");
        let f = seq![("span"@, x.span.wire()), ("severity"@, x.severity.wire()), ("message"@, x.message.wire()), ("source"@, x.source.wire())];
        assert forall|i: int, j: int| 0 <= i < j < 4 implies f[i].0 != f[j].0 by {
                if i == 0 && j == 1 {
                    assert("span"@[1] != "severity"@[1]);
                } else if i == 0 && j == 2 {
                    assert("span"@[0] != "message"@[0]);
                } else if i == 0 && j == 3 {
                    assert("span"@[1] != "source"@[1]);
                } else if i == 1 && j == 2 {
                    assert("severity"@[0] != "message"@[0]);
                } else if i == 1 && j == 3 {
                    assert("severity"@[1] != "source"@[1]);
                } else if i == 2 && j == 3 {
                    assert("message"@[0] != "source"@[0]);
                }
        }
        assert(names_distinct(f));
        lemma_distinct_fields(f);
        assert(f[0].0 == "span"@);
        <Span as Wire>::lemma_wire_round_trip(x.span);
        assert(f[1].0 == "severity"@);
        <Severity as Wire>::lemma_wire_round_trip(x.severity);
        assert(f[2].0 == "message"@);
        <String as Wire>::lemma_wire_round_trip(x.message);
        assert(f[3].0 == "source"@);
        <Option<String> as Wire>::lemma_wire_round_trip(x.source);
    }
}
impl Wire for CharRange {
    open spec fn wire(&self) -> ValueV {
        record_of(seq![("start"@, self.start.wire()), ("end"@, self.end.wire())])
    }

    open spec fn fits(&self) -> bool {
        self.start.fits() && self.end.fits()
    }

    open spec fn unwire(v: ValueV) -> Result<ValueV, WireErrorV> {
        match v {
            ValueV::Record(rec) => match field_unwire::<u32>(rec, "start"@) {
                    Err(e) => Err(e),
                    Ok(w0) =>                     match field_unwire::<u32>(rec, "end"@) {
                        Err(e) => Err(e),
                        Ok(w1) => Ok(record_of(seq![("start"@, w0), ("end"@, w1)])),
                    },
                },
            _ => Err(shape("record"@)),
        }
    }

    open spec fn optional() -> bool {
        false
    }

    fn to_value(&self) -> (r: Value) {
        let mut f: Vec<(&'static str, Value)> = Vec::new();
        f.push(("start", self.start.to_value()));
        f.push(("end", self.end.to_value()));
        proof {
            assert(crate::value::named_view(f@) =~= seq![("start"@, self.start.wire()), ("end"@, self.end.wire())]);
        }
        record_from(f)
    }

    fn from_value(v: &Value) -> (r: Result<Self, WireError>) {
        proof {
            lemma_value_view(*v);
        }
        match v {
            Value::Record(a) => {
                let start = match a.field::<u32>("start") {
                    Ok(x) => x,
                    Err(e) => return Err(e),
                };
                let end = match a.field::<u32>("end") {
                    Ok(x) => x,
                    Err(e) => return Err(e),
                };
                Ok(CharRange { start, end })
            },
            _ => Err(WireError::Shape { expected: "record" }),
        }
    }

    fn is_optional() -> (r: bool) {
        false
    }

    proof fn lemma_wire_round_trip(x: Self) {
        reveal_strlit("end");
        reveal_strlit("start");
        let f = seq![("start"@, x.start.wire()), ("end"@, x.end.wire())];
        assert forall|i: int, j: int| 0 <= i < j < 2 implies f[i].0 != f[j].0 by {
                if i == 0 && j == 1 {
                    assert("start"@[0] != "end"@[0]);
                }
        }
        assert(names_distinct(f));
        lemma_distinct_fields(f);
        assert(f[0].0 == "start"@);
        <u32 as Wire>::lemma_wire_round_trip(x.start);
        assert(f[1].0 == "end"@);
        <u32 as Wire>::lemma_wire_round_trip(x.end);
    }
}
impl Wire for Completion {
    open spec fn wire(&self) -> ValueV {
        record_of(seq![("label"@, self.label.wire()), ("detail"@, self.detail.wire()), ("documentation"@, self.documentation.wire()), ("insert"@, self.insert.wire())])
    }

    open spec fn fits(&self) -> bool {
        self.label.fits() && self.detail.fits() && self.documentation.fits() && self.insert.fits()
    }

    open spec fn unwire(v: ValueV) -> Result<ValueV, WireErrorV> {
        match v {
            ValueV::Record(rec) => match field_unwire::<String>(rec, "label"@) {
                    Err(e) => Err(e),
                    Ok(w0) =>                     match field_unwire::<Option<String>>(rec, "detail"@) {
                        Err(e) => Err(e),
                        Ok(w1) =>                         match field_unwire::<Vec<String>>(rec, "documentation"@) {
                            Err(e) => Err(e),
                            Ok(w2) =>                             match field_unwire::<String>(rec, "insert"@) {
                                Err(e) => Err(e),
                                Ok(w3) => Ok(record_of(seq![("label"@, w0), ("detail"@, w1), ("documentation"@, w2), ("insert"@, w3)])),
                            },
                        },
                    },
                },
            _ => Err(shape("record"@)),
        }
    }

    open spec fn optional() -> bool {
        false
    }

    fn to_value(&self) -> (r: Value) {
        let mut f: Vec<(&'static str, Value)> = Vec::new();
        f.push(("label", self.label.to_value()));
        f.push(("detail", self.detail.to_value()));
        f.push(("documentation", self.documentation.to_value()));
        f.push(("insert", self.insert.to_value()));
        proof {
            assert(crate::value::named_view(f@) =~= seq![("label"@, self.label.wire()), ("detail"@, self.detail.wire()), ("documentation"@, self.documentation.wire()), ("insert"@, self.insert.wire())]);
        }
        record_from(f)
    }

    fn from_value(v: &Value) -> (r: Result<Self, WireError>) {
        proof {
            lemma_value_view(*v);
        }
        match v {
            Value::Record(a) => {
                let label = match a.field::<String>("label") {
                    Ok(x) => x,
                    Err(e) => return Err(e),
                };
                let detail = match a.field::<Option<String>>("detail") {
                    Ok(x) => x,
                    Err(e) => return Err(e),
                };
                let documentation = match a.field::<Vec<String>>("documentation") {
                    Ok(x) => x,
                    Err(e) => return Err(e),
                };
                let insert = match a.field::<String>("insert") {
                    Ok(x) => x,
                    Err(e) => return Err(e),
                };
                Ok(Completion { label, detail, documentation, insert })
            },
            _ => Err(WireError::Shape { expected: "record" }),
        }
    }

    fn is_optional() -> (r: bool) {
        false
    }

    proof fn lemma_wire_round_trip(x: Self) {
        reveal_strlit("detail");
        reveal_strlit("documentation");
        reveal_strlit("insert");
        reveal_strlit("label");
        let f = seq![("label"@, x.label.wire()), ("detail"@, x.detail.wire()), ("documentation"@, x.documentation.wire()), ("insert"@, x.insert.wire())];
        assert forall|i: int, j: int| 0 <= i < j < 4 implies f[i].0 != f[j].0 by {
                if i == 0 && j == 1 {
                    assert("label"@[0] != "detail"@[0]);
                } else if i == 0 && j == 2 {
                    assert("label"@[0] != "documentation"@[0]);
                } else if i == 0 && j == 3 {
                    assert("label"@[0] != "insert"@[0]);
                } else if i == 1 && j == 2 {
                    assert("detail"@[1] != "documentation"@[1]);
                } else if i == 1 && j == 3 {
                    assert("detail"@[0] != "insert"@[0]);
                } else if i == 2 && j == 3 {
                    assert("documentation"@[0] != "insert"@[0]);
                }
        }
        assert(names_distinct(f));
        lemma_distinct_fields(f);
        assert(f[0].0 == "label"@);
        <String as Wire>::lemma_wire_round_trip(x.label);
        assert(f[1].0 == "detail"@);
        <Option<String> as Wire>::lemma_wire_round_trip(x.detail);
        assert(f[2].0 == "documentation"@);
        <Vec<String> as Wire>::lemma_wire_round_trip(x.documentation);
        assert(f[3].0 == "insert"@);
        <String as Wire>::lemma_wire_round_trip(x.insert);
    }
}
impl Wire for Signature {
    open spec fn wire(&self) -> ValueV {
        record_of(seq![("label"@, self.label.wire()), ("active"@, self.active.wire()), ("documentation"@, self.documentation.wire())])
    }

    open spec fn fits(&self) -> bool {
        self.label.fits() && self.active.fits() && self.documentation.fits()
    }

    open spec fn unwire(v: ValueV) -> Result<ValueV, WireErrorV> {
        match v {
            ValueV::Record(rec) => match field_unwire::<String>(rec, "label"@) {
                    Err(e) => Err(e),
                    Ok(w0) =>                     match field_unwire::<Option<CharRange>>(rec, "active"@) {
                        Err(e) => Err(e),
                        Ok(w1) =>                         match field_unwire::<Vec<String>>(rec, "documentation"@) {
                            Err(e) => Err(e),
                            Ok(w2) => Ok(record_of(seq![("label"@, w0), ("active"@, w1), ("documentation"@, w2)])),
                        },
                    },
                },
            _ => Err(shape("record"@)),
        }
    }

    open spec fn optional() -> bool {
        false
    }

    fn to_value(&self) -> (r: Value) {
        let mut f: Vec<(&'static str, Value)> = Vec::new();
        f.push(("label", self.label.to_value()));
        f.push(("active", self.active.to_value()));
        f.push(("documentation", self.documentation.to_value()));
        proof {
            assert(crate::value::named_view(f@) =~= seq![("label"@, self.label.wire()), ("active"@, self.active.wire()), ("documentation"@, self.documentation.wire())]);
        }
        record_from(f)
    }

    fn from_value(v: &Value) -> (r: Result<Self, WireError>) {
        proof {
            lemma_value_view(*v);
        }
        match v {
            Value::Record(a) => {
                let label = match a.field::<String>("label") {
                    Ok(x) => x,
                    Err(e) => return Err(e),
                };
                let active = match a.field::<Option<CharRange>>("active") {
                    Ok(x) => x,
                    Err(e) => return Err(e),
                };
                let documentation = match a.field::<Vec<String>>("documentation") {
                    Ok(x) => x,
                    Err(e) => return Err(e),
                };
                Ok(Signature { label, active, documentation })
            },
            _ => Err(WireError::Shape { expected: "record" }),
        }
    }

    fn is_optional() -> (r: bool) {
        false
    }

    proof fn lemma_wire_round_trip(x: Self) {
        reveal_strlit("active");
        reveal_strlit("documentation");
        reveal_strlit("label");
        let f = seq![("label"@, x.label.wire()), ("active"@, x.active.wire()), ("documentation"@, x.documentation.wire())];
        assert forall|i: int, j: int| 0 <= i < j < 3 implies f[i].0 != f[j].0 by {
                if i == 0 && j == 1 {
                    assert("label"@[0] != "active"@[0]);
                } else if i == 0 && j == 2 {
                    assert("label"@[0] != "documentation"@[0]);
                } else if i == 1 && j == 2 {
                    assert("active"@[0] != "documentation"@[0]);
                }
        }
        assert(names_distinct(f));
        lemma_distinct_fields(f);
        assert(f[0].0 == "label"@);
        <String as Wire>::lemma_wire_round_trip(x.label);
        assert(f[1].0 == "active"@);
        <Option<CharRange> as Wire>::lemma_wire_round_trip(x.active);
        assert(f[2].0 == "documentation"@);
        <Vec<String> as Wire>::lemma_wire_round_trip(x.documentation);
    }
}
impl Wire for Edit {
    open spec fn wire(&self) -> ValueV {
        record_of(seq![("span"@, self.span.wire()), ("text"@, self.text.wire())])
    }

    open spec fn fits(&self) -> bool {
        self.span.fits() && self.text.fits()
    }

    open spec fn unwire(v: ValueV) -> Result<ValueV, WireErrorV> {
        match v {
            ValueV::Record(rec) => match field_unwire::<Span>(rec, "span"@) {
                    Err(e) => Err(e),
                    Ok(w0) =>                     match field_unwire::<String>(rec, "text"@) {
                        Err(e) => Err(e),
                        Ok(w1) => Ok(record_of(seq![("span"@, w0), ("text"@, w1)])),
                    },
                },
            _ => Err(shape("record"@)),
        }
    }

    open spec fn optional() -> bool {
        false
    }

    fn to_value(&self) -> (r: Value) {
        let mut f: Vec<(&'static str, Value)> = Vec::new();
        f.push(("span", self.span.to_value()));
        f.push(("text", self.text.to_value()));
        proof {
            assert(crate::value::named_view(f@) =~= seq![("span"@, self.span.wire()), ("text"@, self.text.wire())]);
        }
        record_from(f)
    }

    fn from_value(v: &Value) -> (r: Result<Self, WireError>) {
        proof {
            lemma_value_view(*v);
        }
        match v {
            Value::Record(a) => {
                let span = match a.field::<Span>("span") {
                    Ok(x) => x,
                    Err(e) => return Err(e),
                };
                let text = match a.field::<String>("text") {
                    Ok(x) => x,
                    Err(e) => return Err(e),
                };
                Ok(Edit { span, text })
            },
            _ => Err(WireError::Shape { expected: "record" }),
        }
    }

    fn is_optional() -> (r: bool) {
        false
    }

    proof fn lemma_wire_round_trip(x: Self) {
        reveal_strlit("span");
        reveal_strlit("text");
        let f = seq![("span"@, x.span.wire()), ("text"@, x.text.wire())];
        assert forall|i: int, j: int| 0 <= i < j < 2 implies f[i].0 != f[j].0 by {
                if i == 0 && j == 1 {
                    assert("span"@[0] != "text"@[0]);
                }
        }
        assert(names_distinct(f));
        lemma_distinct_fields(f);
        assert(f[0].0 == "span"@);
        <Span as Wire>::lemma_wire_round_trip(x.span);
        assert(f[1].0 == "text"@);
        <String as Wire>::lemma_wire_round_trip(x.text);
    }
}
impl Wire for FileEdits {
    open spec fn wire(&self) -> ValueV {
        record_of(seq![("path"@, self.path.wire()), ("edits"@, self.edits.wire())])
    }

    open spec fn fits(&self) -> bool {
        self.path.fits() && self.edits.fits()
    }

    open spec fn unwire(v: ValueV) -> Result<ValueV, WireErrorV> {
        match v {
            ValueV::Record(rec) => match field_unwire::<String>(rec, "path"@) {
                    Err(e) => Err(e),
                    Ok(w0) =>                     match field_unwire::<Vec<Edit>>(rec, "edits"@) {
                        Err(e) => Err(e),
                        Ok(w1) => Ok(record_of(seq![("path"@, w0), ("edits"@, w1)])),
                    },
                },
            _ => Err(shape("record"@)),
        }
    }

    open spec fn optional() -> bool {
        false
    }

    fn to_value(&self) -> (r: Value) {
        let mut f: Vec<(&'static str, Value)> = Vec::new();
        f.push(("path", self.path.to_value()));
        f.push(("edits", self.edits.to_value()));
        proof {
            assert(crate::value::named_view(f@) =~= seq![("path"@, self.path.wire()), ("edits"@, self.edits.wire())]);
        }
        record_from(f)
    }

    fn from_value(v: &Value) -> (r: Result<Self, WireError>) {
        proof {
            lemma_value_view(*v);
        }
        match v {
            Value::Record(a) => {
                let path = match a.field::<String>("path") {
                    Ok(x) => x,
                    Err(e) => return Err(e),
                };
                let edits = match a.field::<Vec<Edit>>("edits") {
                    Ok(x) => x,
                    Err(e) => return Err(e),
                };
                Ok(FileEdits { path, edits })
            },
            _ => Err(WireError::Shape { expected: "record" }),
        }
    }

    fn is_optional() -> (r: bool) {
        false
    }

    proof fn lemma_wire_round_trip(x: Self) {
        reveal_strlit("edits");
        reveal_strlit("path");
        let f = seq![("path"@, x.path.wire()), ("edits"@, x.edits.wire())];
        assert forall|i: int, j: int| 0 <= i < j < 2 implies f[i].0 != f[j].0 by {
                if i == 0 && j == 1 {
                    assert("path"@[0] != "edits"@[0]);
                }
        }
        assert(names_distinct(f));
        lemma_distinct_fields(f);
        assert(f[0].0 == "path"@);
        <String as Wire>::lemma_wire_round_trip(x.path);
        assert(f[1].0 == "edits"@);
        <Vec<Edit> as Wire>::lemma_wire_round_trip(x.edits);
    }
}
impl Wire for LanguageSpec {
    open spec fn wire(&self) -> ValueV {
        record_of(seq![("extensions"@, self.extensions.wire()), ("grammar"@, self.grammar.wire()), ("lsp_command"@, self.lsp_command.wire()), ("comment_prefix"@, self.comment_prefix.wire())])
    }

    open spec fn fits(&self) -> bool {
        self.extensions.fits() && self.grammar.fits() && self.lsp_command.fits() && self.comment_prefix.fits()
    }

    open spec fn unwire(v: ValueV) -> Result<ValueV, WireErrorV> {
        match v {
            ValueV::Record(rec) => match field_unwire::<Vec<String>>(rec, "extensions"@) {
                    Err(e) => Err(e),
                    Ok(w0) =>                     match field_unwire::<Option<String>>(rec, "grammar"@) {
                        Err(e) => Err(e),
                        Ok(w1) =>                         match field_unwire::<Vec<String>>(rec, "lsp_command"@) {
                            Err(e) => Err(e),
                            Ok(w2) =>                             match field_unwire::<Option<String>>(rec, "comment_prefix"@) {
                                Err(e) => Err(e),
                                Ok(w3) => Ok(record_of(seq![("extensions"@, w0), ("grammar"@, w1), ("lsp_command"@, w2), ("comment_prefix"@, w3)])),
                            },
                        },
                    },
                },
            _ => Err(shape("record"@)),
        }
    }

    open spec fn optional() -> bool {
        false
    }

    fn to_value(&self) -> (r: Value) {
        let mut f: Vec<(&'static str, Value)> = Vec::new();
        f.push(("extensions", self.extensions.to_value()));
        f.push(("grammar", self.grammar.to_value()));
        f.push(("lsp_command", self.lsp_command.to_value()));
        f.push(("comment_prefix", self.comment_prefix.to_value()));
        proof {
            assert(crate::value::named_view(f@) =~= seq![("extensions"@, self.extensions.wire()), ("grammar"@, self.grammar.wire()), ("lsp_command"@, self.lsp_command.wire()), ("comment_prefix"@, self.comment_prefix.wire())]);
        }
        record_from(f)
    }

    fn from_value(v: &Value) -> (r: Result<Self, WireError>) {
        proof {
            lemma_value_view(*v);
        }
        match v {
            Value::Record(a) => {
                let extensions = match a.field::<Vec<String>>("extensions") {
                    Ok(x) => x,
                    Err(e) => return Err(e),
                };
                let grammar = match a.field::<Option<String>>("grammar") {
                    Ok(x) => x,
                    Err(e) => return Err(e),
                };
                let lsp_command = match a.field::<Vec<String>>("lsp_command") {
                    Ok(x) => x,
                    Err(e) => return Err(e),
                };
                let comment_prefix = match a.field::<Option<String>>("comment_prefix") {
                    Ok(x) => x,
                    Err(e) => return Err(e),
                };
                Ok(LanguageSpec { extensions, grammar, lsp_command, comment_prefix })
            },
            _ => Err(WireError::Shape { expected: "record" }),
        }
    }

    fn is_optional() -> (r: bool) {
        false
    }

    proof fn lemma_wire_round_trip(x: Self) {
        reveal_strlit("comment_prefix");
        reveal_strlit("extensions");
        reveal_strlit("grammar");
        reveal_strlit("lsp_command");
        let f = seq![("extensions"@, x.extensions.wire()), ("grammar"@, x.grammar.wire()), ("lsp_command"@, x.lsp_command.wire()), ("comment_prefix"@, x.comment_prefix.wire())];
        assert forall|i: int, j: int| 0 <= i < j < 4 implies f[i].0 != f[j].0 by {
                if i == 0 && j == 1 {
                    assert("extensions"@[0] != "grammar"@[0]);
                } else if i == 0 && j == 2 {
                    assert("extensions"@[0] != "lsp_command"@[0]);
                } else if i == 0 && j == 3 {
                    assert("extensions"@[0] != "comment_prefix"@[0]);
                } else if i == 1 && j == 2 {
                    assert("grammar"@[0] != "lsp_command"@[0]);
                } else if i == 1 && j == 3 {
                    assert("grammar"@[0] != "comment_prefix"@[0]);
                } else if i == 2 && j == 3 {
                    assert("lsp_command"@[0] != "comment_prefix"@[0]);
                }
        }
        assert(names_distinct(f));
        lemma_distinct_fields(f);
        assert(f[0].0 == "extensions"@);
        <Vec<String> as Wire>::lemma_wire_round_trip(x.extensions);
        assert(f[1].0 == "grammar"@);
        <Option<String> as Wire>::lemma_wire_round_trip(x.grammar);
        assert(f[2].0 == "lsp_command"@);
        <Vec<String> as Wire>::lemma_wire_round_trip(x.lsp_command);
        assert(f[3].0 == "comment_prefix"@);
        <Option<String> as Wire>::lemma_wire_round_trip(x.comment_prefix);
    }
}
impl Wire for RegionFilter {
    open spec fn wire(&self) -> ValueV {
        record_of(seq![("author"@, self.author.wire()), ("unseen_only"@, self.unseen_only.wire()), ("within"@, self.within.wire())])
    }

    open spec fn fits(&self) -> bool {
        self.author.fits() && self.unseen_only.fits() && self.within.fits()
    }

    open spec fn unwire(v: ValueV) -> Result<ValueV, WireErrorV> {
        match v {
            ValueV::Record(rec) => match field_unwire::<Option<Actor>>(rec, "author"@) {
                    Err(e) => Err(e),
                    Ok(w0) =>                     match field_unwire::<bool>(rec, "unseen_only"@) {
                        Err(e) => Err(e),
                        Ok(w1) =>                         match field_unwire::<Option<Target>>(rec, "within"@) {
                            Err(e) => Err(e),
                            Ok(w2) => Ok(record_of(seq![("author"@, w0), ("unseen_only"@, w1), ("within"@, w2)])),
                        },
                    },
                },
            _ => Err(shape("record"@)),
        }
    }

    open spec fn optional() -> bool {
        false
    }

    fn to_value(&self) -> (r: Value) {
        let mut f: Vec<(&'static str, Value)> = Vec::new();
        f.push(("author", self.author.to_value()));
        f.push(("unseen_only", self.unseen_only.to_value()));
        f.push(("within", self.within.to_value()));
        proof {
            assert(crate::value::named_view(f@) =~= seq![("author"@, self.author.wire()), ("unseen_only"@, self.unseen_only.wire()), ("within"@, self.within.wire())]);
        }
        record_from(f)
    }

    fn from_value(v: &Value) -> (r: Result<Self, WireError>) {
        proof {
            lemma_value_view(*v);
        }
        match v {
            Value::Record(a) => {
                let author = match a.field::<Option<Actor>>("author") {
                    Ok(x) => x,
                    Err(e) => return Err(e),
                };
                let unseen_only = match a.field::<bool>("unseen_only") {
                    Ok(x) => x,
                    Err(e) => return Err(e),
                };
                let within = match a.field::<Option<Target>>("within") {
                    Ok(x) => x,
                    Err(e) => return Err(e),
                };
                Ok(RegionFilter { author, unseen_only, within })
            },
            _ => Err(WireError::Shape { expected: "record" }),
        }
    }

    fn is_optional() -> (r: bool) {
        false
    }

    proof fn lemma_wire_round_trip(x: Self) {
        reveal_strlit("author");
        reveal_strlit("unseen_only");
        reveal_strlit("within");
        let f = seq![("author"@, x.author.wire()), ("unseen_only"@, x.unseen_only.wire()), ("within"@, x.within.wire())];
        assert forall|i: int, j: int| 0 <= i < j < 3 implies f[i].0 != f[j].0 by {
                if i == 0 && j == 1 {
                    assert("author"@[0] != "unseen_only"@[0]);
                } else if i == 0 && j == 2 {
                    assert("author"@[0] != "within"@[0]);
                } else if i == 1 && j == 2 {
                    assert("unseen_only"@[0] != "within"@[0]);
                }
        }
        assert(names_distinct(f));
        lemma_distinct_fields(f);
        assert(f[0].0 == "author"@);
        <Option<Actor> as Wire>::lemma_wire_round_trip(x.author);
        assert(f[1].0 == "unseen_only"@);
        <bool as Wire>::lemma_wire_round_trip(x.unseen_only);
        assert(f[2].0 == "within"@);
        <Option<Target> as Wire>::lemma_wire_round_trip(x.within);
    }
}
/// The tags [`Actor`] is spelled with.
pub open spec fn actor_tags_v() -> Seq<Seq<char>> {
    seq!["you"@, "agent"@, "steel"@, "cli"@, "system"@]
}

fn actor_tags() -> (r: Vec<&'static str>)
    ensures
        names_view(r@) == actor_tags_v(),
{
    let mut r: Vec<&'static str> = Vec::new();
    r.push("you");
    r.push("agent");
    r.push("steel");
    r.push("cli");
    r.push("system");
    assert(names_view(r@) =~= actor_tags_v());
    r
}

impl Wire for Actor {
    open spec fn wire(&self) -> ValueV {
        ValueV::Text(match self {
            Actor::You => "you"@,
            Actor::Claude => "agent"@,
            Actor::Steel => "steel"@,
            Actor::Cli => "cli"@,
            Actor::System => "system"@,
        })
    }

    open spec fn fits(&self) -> bool {
        true
    }

    open spec fn unwire(v: ValueV) -> Result<ValueV, WireErrorV> {
        match v {
            ValueV::Text(t) => if t == "you"@ {
                Ok(ValueV::Text("you"@))
            } else if t == "agent"@ {
                Ok(ValueV::Text("agent"@))
            } else if t == "steel"@ {
                Ok(ValueV::Text("steel"@))
            } else if t == "cli"@ {
                Ok(ValueV::Text("cli"@))
            } else if t == "system"@ {
                Ok(ValueV::Text("system"@))
            } else {
                Err(WireErrorV::Tag { got: t, expected: actor_tags_v() })
            },
            _ => Err(shape("text"@)),
        }
    }

    open spec fn optional() -> bool {
        false
    }

    fn to_value(&self) -> (r: Value) {
        let s: &'static str = match self {
            Actor::You => "you",
            Actor::Claude => "agent",
            Actor::Steel => "steel",
            Actor::Cli => "cli",
            Actor::System => "system",
        };
        let r = Value::Text(String::from_str(s));
        proof {
            lemma_value_view(r);
        }
        r
    }

    fn from_value(v: &Value) -> (r: Result<Self, WireError>) {
        proof {
            lemma_value_view(*v);
        }
        match v {
            Value::Text(t) => if str_eq(t.as_str(), "you") {
                    Ok(Actor::You)
                } else if str_eq(t.as_str(), "agent") {
                    Ok(Actor::Claude)
                } else if str_eq(t.as_str(), "steel") {
                    Ok(Actor::Steel)
                } else if str_eq(t.as_str(), "cli") {
                    Ok(Actor::Cli)
                } else if str_eq(t.as_str(), "system") {
                    Ok(Actor::System)
                } else {
                    Err(WireError::Tag { got: t.clone(), expected: actor_tags() })
                },
            _ => Err(WireError::Shape { expected: "text" }),
        }
    }

    fn is_optional() -> (r: bool) {
        false
    }

    proof fn lemma_wire_round_trip(x: Self) {
        reveal_strlit("agent");
        reveal_strlit("cli");
        reveal_strlit("steel");
        reveal_strlit("system");
        reveal_strlit("you");
        match x {
            Actor::You => {
            },
            Actor::Claude => {
                assert("agent"@[0] != "you"@[0]);
            },
            Actor::Steel => {
                assert("steel"@[0] != "you"@[0]);
                assert("steel"@[0] != "agent"@[0]);
            },
            Actor::Cli => {
                assert("cli"@[0] != "you"@[0]);
                assert("cli"@[0] != "agent"@[0]);
                assert("cli"@[0] != "steel"@[0]);
            },
            Actor::System => {
                assert("system"@[0] != "you"@[0]);
                assert("system"@[0] != "agent"@[0]);
                assert("system"@[1] != "steel"@[1]);
                assert("system"@[0] != "cli"@[0]);
            },
        }
    }
}
/// The tags [`Direction`] is spelled with.
pub open spec fn direction_tags_v() -> Seq<Seq<char>> {
    seq!["up"@, "down"@, "left"@, "right"@]
}

fn direction_tags() -> (r: Vec<&'static str>)
    ensures
        names_view(r@) == direction_tags_v(),
{
    let mut r: Vec<&'static str> = Vec::new();
    r.push("up");
    r.push("down");
    r.push("left");
    r.push("right");
    assert(names_view(r@) =~= direction_tags_v());
    r
}

impl Wire for Direction {
    open spec fn wire(&self) -> ValueV {
        ValueV::Text(match self {
            Direction::Up => "up"@,
            Direction::Down => "down"@,
            Direction::Left => "left"@,
            Direction::Right => "right"@,
        })
    }

    open spec fn fits(&self) -> bool {
        true
    }

    open spec fn unwire(v: ValueV) -> Result<ValueV, WireErrorV> {
        match v {
            ValueV::Text(t) => if t == "up"@ {
                Ok(ValueV::Text("up"@))
            } else if t == "down"@ {
                Ok(ValueV::Text("down"@))
            } else if t == "left"@ {
                Ok(ValueV::Text("left"@))
            } else if t == "right"@ {
                Ok(ValueV::Text("right"@))
            } else {
                Err(WireErrorV::Tag { got: t, expected: direction_tags_v() })
            },
            _ => Err(shape("text"@)),
        }
    }

    open spec fn optional() -> bool {
        false
    }

    fn to_value(&self) -> (r: Value) {
        let s: &'static str = match self {
            Direction::Up => "up",
            Direction::Down => "down",
            Direction::Left => "left",
            Direction::Right => "right",
        };
        let r = Value::Text(String::from_str(s));
        proof {
            lemma_value_view(r);
        }
        r
    }

    fn from_value(v: &Value) -> (r: Result<Self, WireError>) {
        proof {
            lemma_value_view(*v);
        }
        match v {
            Value::Text(t) => if str_eq(t.as_str(), "up") {
                    Ok(Direction::Up)
                } else if str_eq(t.as_str(), "down") {
                    Ok(Direction::Down)
                } else if str_eq(t.as_str(), "left") {
                    Ok(Direction::Left)
                } else if str_eq(t.as_str(), "right") {
                    Ok(Direction::Right)
                } else {
                    Err(WireError::Tag { got: t.clone(), expected: direction_tags() })
                },
            _ => Err(WireError::Shape { expected: "text" }),
        }
    }

    fn is_optional() -> (r: bool) {
        false
    }

    proof fn lemma_wire_round_trip(x: Self) {
        reveal_strlit("down");
        reveal_strlit("left");
        reveal_strlit("right");
        reveal_strlit("up");
        match x {
            Direction::Up => {
            },
            Direction::Down => {
                assert("down"@[0] != "up"@[0]);
            },
            Direction::Left => {
                assert("left"@[0] != "up"@[0]);
                assert("left"@[0] != "down"@[0]);
            },
            Direction::Right => {
                assert("right"@[0] != "up"@[0]);
                assert("right"@[0] != "down"@[0]);
                assert("right"@[0] != "left"@[0]);
            },
        }
    }
}
/// The tags [`Seek`] is spelled with.
pub open spec fn seek_tags_v() -> Seq<Seq<char>> {
    seq!["next"@, "prev"@, "first"@, "last"@]
}

fn seek_tags() -> (r: Vec<&'static str>)
    ensures
        names_view(r@) == seek_tags_v(),
{
    let mut r: Vec<&'static str> = Vec::new();
    r.push("next");
    r.push("prev");
    r.push("first");
    r.push("last");
    assert(names_view(r@) =~= seek_tags_v());
    r
}

impl Wire for Seek {
    open spec fn wire(&self) -> ValueV {
        ValueV::Text(match self {
            Seek::Next => "next"@,
            Seek::Prev => "prev"@,
            Seek::First => "first"@,
            Seek::Last => "last"@,
        })
    }

    open spec fn fits(&self) -> bool {
        true
    }

    open spec fn unwire(v: ValueV) -> Result<ValueV, WireErrorV> {
        match v {
            ValueV::Text(t) => if t == "next"@ {
                Ok(ValueV::Text("next"@))
            } else if t == "prev"@ {
                Ok(ValueV::Text("prev"@))
            } else if t == "first"@ {
                Ok(ValueV::Text("first"@))
            } else if t == "last"@ {
                Ok(ValueV::Text("last"@))
            } else {
                Err(WireErrorV::Tag { got: t, expected: seek_tags_v() })
            },
            _ => Err(shape("text"@)),
        }
    }

    open spec fn optional() -> bool {
        false
    }

    fn to_value(&self) -> (r: Value) {
        let s: &'static str = match self {
            Seek::Next => "next",
            Seek::Prev => "prev",
            Seek::First => "first",
            Seek::Last => "last",
        };
        let r = Value::Text(String::from_str(s));
        proof {
            lemma_value_view(r);
        }
        r
    }

    fn from_value(v: &Value) -> (r: Result<Self, WireError>) {
        proof {
            lemma_value_view(*v);
        }
        match v {
            Value::Text(t) => if str_eq(t.as_str(), "next") {
                    Ok(Seek::Next)
                } else if str_eq(t.as_str(), "prev") {
                    Ok(Seek::Prev)
                } else if str_eq(t.as_str(), "first") {
                    Ok(Seek::First)
                } else if str_eq(t.as_str(), "last") {
                    Ok(Seek::Last)
                } else {
                    Err(WireError::Tag { got: t.clone(), expected: seek_tags() })
                },
            _ => Err(WireError::Shape { expected: "text" }),
        }
    }

    fn is_optional() -> (r: bool) {
        false
    }

    proof fn lemma_wire_round_trip(x: Self) {
        reveal_strlit("first");
        reveal_strlit("last");
        reveal_strlit("next");
        reveal_strlit("prev");
        match x {
            Seek::Next => {
            },
            Seek::Prev => {
                assert("prev"@[0] != "next"@[0]);
            },
            Seek::First => {
                assert("first"@[0] != "next"@[0]);
                assert("first"@[0] != "prev"@[0]);
            },
            Seek::Last => {
                assert("last"@[0] != "next"@[0]);
                assert("last"@[0] != "prev"@[0]);
                assert("last"@[0] != "first"@[0]);
            },
        }
    }
}
/// The tags [`EditMode`] is spelled with.
pub open spec fn editmode_tags_v() -> Seq<Seq<char>> {
    seq!["normal"@, "insert"@, "visual-char"@, "visual-line"@, "visual-block"@, "replace"@, "operator-pending"@]
}

fn editmode_tags() -> (r: Vec<&'static str>)
    ensures
        names_view(r@) == editmode_tags_v(),
{
    let mut r: Vec<&'static str> = Vec::new();
    r.push("normal");
    r.push("insert");
    r.push("visual-char");
    r.push("visual-line");
    r.push("visual-block");
    r.push("replace");
    r.push("operator-pending");
    assert(names_view(r@) =~= editmode_tags_v());
    r
}

impl Wire for EditMode {
    open spec fn wire(&self) -> ValueV {
        ValueV::Text(match self {
            EditMode::Normal => "normal"@,
            EditMode::Insert => "insert"@,
            EditMode::VisualChar => "visual-char"@,
            EditMode::VisualLine => "visual-line"@,
            EditMode::VisualBlock => "visual-block"@,
            EditMode::Replace => "replace"@,
            EditMode::OperatorPending => "operator-pending"@,
        })
    }

    open spec fn fits(&self) -> bool {
        true
    }

    open spec fn unwire(v: ValueV) -> Result<ValueV, WireErrorV> {
        match v {
            ValueV::Text(t) => if t == "normal"@ {
                Ok(ValueV::Text("normal"@))
            } else if t == "insert"@ {
                Ok(ValueV::Text("insert"@))
            } else if t == "visual-char"@ {
                Ok(ValueV::Text("visual-char"@))
            } else if t == "visual-line"@ {
                Ok(ValueV::Text("visual-line"@))
            } else if t == "visual-block"@ {
                Ok(ValueV::Text("visual-block"@))
            } else if t == "replace"@ {
                Ok(ValueV::Text("replace"@))
            } else if t == "operator-pending"@ {
                Ok(ValueV::Text("operator-pending"@))
            } else {
                Err(WireErrorV::Tag { got: t, expected: editmode_tags_v() })
            },
            _ => Err(shape("text"@)),
        }
    }

    open spec fn optional() -> bool {
        false
    }

    fn to_value(&self) -> (r: Value) {
        let s: &'static str = match self {
            EditMode::Normal => "normal",
            EditMode::Insert => "insert",
            EditMode::VisualChar => "visual-char",
            EditMode::VisualLine => "visual-line",
            EditMode::VisualBlock => "visual-block",
            EditMode::Replace => "replace",
            EditMode::OperatorPending => "operator-pending",
        };
        let r = Value::Text(String::from_str(s));
        proof {
            lemma_value_view(r);
        }
        r
    }

    fn from_value(v: &Value) -> (r: Result<Self, WireError>) {
        proof {
            lemma_value_view(*v);
        }
        match v {
            Value::Text(t) => if str_eq(t.as_str(), "normal") {
                    Ok(EditMode::Normal)
                } else if str_eq(t.as_str(), "insert") {
                    Ok(EditMode::Insert)
                } else if str_eq(t.as_str(), "visual-char") {
                    Ok(EditMode::VisualChar)
                } else if str_eq(t.as_str(), "visual-line") {
                    Ok(EditMode::VisualLine)
                } else if str_eq(t.as_str(), "visual-block") {
                    Ok(EditMode::VisualBlock)
                } else if str_eq(t.as_str(), "replace") {
                    Ok(EditMode::Replace)
                } else if str_eq(t.as_str(), "operator-pending") {
                    Ok(EditMode::OperatorPending)
                } else {
                    Err(WireError::Tag { got: t.clone(), expected: editmode_tags() })
                },
            _ => Err(WireError::Shape { expected: "text" }),
        }
    }

    fn is_optional() -> (r: bool) {
        false
    }

    proof fn lemma_wire_round_trip(x: Self) {
        reveal_strlit("insert");
        reveal_strlit("normal");
        reveal_strlit("operator-pending");
        reveal_strlit("replace");
        reveal_strlit("visual-block");
        reveal_strlit("visual-char");
        reveal_strlit("visual-line");
        match x {
            EditMode::Normal => {
            },
            EditMode::Insert => {
                assert("insert"@[0] != "normal"@[0]);
            },
            EditMode::VisualChar => {
                assert("visual-char"@[0] != "normal"@[0]);
                assert("visual-char"@[0] != "insert"@[0]);
            },
            EditMode::VisualLine => {
                assert("visual-line"@[0] != "normal"@[0]);
                assert("visual-line"@[0] != "insert"@[0]);
                assert("visual-line"@[7] != "visual-char"@[7]);
            },
            EditMode::VisualBlock => {
                assert("visual-block"@[0] != "normal"@[0]);
                assert("visual-block"@[0] != "insert"@[0]);
                assert("visual-block"@[7] != "visual-char"@[7]);
                assert("visual-block"@[7] != "visual-line"@[7]);
            },
            EditMode::Replace => {
                assert("replace"@[0] != "normal"@[0]);
                assert("replace"@[0] != "insert"@[0]);
                assert("replace"@[0] != "visual-char"@[0]);
                assert("replace"@[0] != "visual-line"@[0]);
                assert("replace"@[0] != "visual-block"@[0]);
            },
            EditMode::OperatorPending => {
                assert("operator-pending"@[0] != "normal"@[0]);
                assert("operator-pending"@[0] != "insert"@[0]);
                assert("operator-pending"@[0] != "visual-char"@[0]);
                assert("operator-pending"@[0] != "visual-line"@[0]);
                assert("operator-pending"@[0] != "visual-block"@[0]);
                assert("operator-pending"@[0] != "replace"@[0]);
            },
        }
    }
}
/// The tags [`Motion`] is spelled with.
pub open spec fn motion_tags_v() -> Seq<Seq<char>> {
    seq!["char-left"@, "char-right"@, "line-up"@, "line-down"@, "word-forward"@, "word-backward"@, "word-end"@, "big-word-forward"@, "big-word-backward"@, "big-word-end"@, "find-char-forward"@, "find-char-backward"@, "till-char-forward"@, "till-char-backward"@, "repeat-find"@, "repeat-find-reverse"@, "line-start"@, "first-non-blank"@, "line-end"@, "buffer-start"@, "buffer-end"@, "paragraph-forward"@, "paragraph-backward"@, "matching-bracket"@, "screen-top"@, "screen-middle"@, "screen-bottom"@, "half-page-down"@, "half-page-up"@, "search-next"@, "search-prev"@]
}

fn motion_tags() -> (r: Vec<&'static str>)
    ensures
        names_view(r@) == motion_tags_v(),
{
    let mut r: Vec<&'static str> = Vec::new();
    r.push("char-left");
    r.push("char-right");
    r.push("line-up");
    r.push("line-down");
    r.push("word-forward");
    r.push("word-backward");
    r.push("word-end");
    r.push("big-word-forward");
    r.push("big-word-backward");
    r.push("big-word-end");
    r.push("find-char-forward");
    r.push("find-char-backward");
    r.push("till-char-forward");
    r.push("till-char-backward");
    r.push("repeat-find");
    r.push("repeat-find-reverse");
    r.push("line-start");
    r.push("first-non-blank");
    r.push("line-end");
    r.push("buffer-start");
    r.push("buffer-end");
    r.push("paragraph-forward");
    r.push("paragraph-backward");
    r.push("matching-bracket");
    r.push("screen-top");
    r.push("screen-middle");
    r.push("screen-bottom");
    r.push("half-page-down");
    r.push("half-page-up");
    r.push("search-next");
    r.push("search-prev");
    assert(names_view(r@) =~= motion_tags_v());
    r
}

impl Wire for Motion {
    open spec fn wire(&self) -> ValueV {
        ValueV::Text(match self {
            Motion::CharLeft => "char-left"@,
            Motion::CharRight => "char-right"@,
            Motion::LineUp => "line-up"@,
            Motion::LineDown => "line-down"@,
            Motion::WordForward => "word-forward"@,
            Motion::WordBackward => "word-backward"@,
            Motion::WordEnd => "word-end"@,
            Motion::BigWordForward => "big-word-forward"@,
            Motion::BigWordBackward => "big-word-backward"@,
            Motion::BigWordEnd => "big-word-end"@,
            Motion::FindCharForward => "find-char-forward"@,
            Motion::FindCharBackward => "find-char-backward"@,
            Motion::TillCharForward => "till-char-forward"@,
            Motion::TillCharBackward => "till-char-backward"@,
            Motion::RepeatFind => "repeat-find"@,
            Motion::RepeatFindReverse => "repeat-find-reverse"@,
            Motion::LineStart => "line-start"@,
            Motion::FirstNonBlank => "first-non-blank"@,
            Motion::LineEnd => "line-end"@,
            Motion::BufferStart => "buffer-start"@,
            Motion::BufferEnd => "buffer-end"@,
            Motion::ParagraphForward => "paragraph-forward"@,
            Motion::ParagraphBackward => "paragraph-backward"@,
            Motion::MatchingBracket => "matching-bracket"@,
            Motion::ScreenTop => "screen-top"@,
            Motion::ScreenMiddle => "screen-middle"@,
            Motion::ScreenBottom => "screen-bottom"@,
            Motion::HalfPageDown => "half-page-down"@,
            Motion::HalfPageUp => "half-page-up"@,
            Motion::SearchNext => "search-next"@,
            Motion::SearchPrev => "search-prev"@,
        })
    }

    open spec fn fits(&self) -> bool {
        true
    }

    open spec fn unwire(v: ValueV) -> Result<ValueV, WireErrorV> {
        match v {
            ValueV::Text(t) => if t == "char-left"@ {
                Ok(ValueV::Text("char-left"@))
            } else if t == "char-right"@ {
                Ok(ValueV::Text("char-right"@))
            } else if t == "line-up"@ {
                Ok(ValueV::Text("line-up"@))
            } else if t == "line-down"@ {
                Ok(ValueV::Text("line-down"@))
            } else if t == "word-forward"@ {
                Ok(ValueV::Text("word-forward"@))
            } else if t == "word-backward"@ {
                Ok(ValueV::Text("word-backward"@))
            } else if t == "word-end"@ {
                Ok(ValueV::Text("word-end"@))
            } else if t == "big-word-forward"@ {
                Ok(ValueV::Text("big-word-forward"@))
            } else if t == "big-word-backward"@ {
                Ok(ValueV::Text("big-word-backward"@))
            } else if t == "big-word-end"@ {
                Ok(ValueV::Text("big-word-end"@))
            } else if t == "find-char-forward"@ {
                Ok(ValueV::Text("find-char-forward"@))
            } else if t == "find-char-backward"@ {
                Ok(ValueV::Text("find-char-backward"@))
            } else if t == "till-char-forward"@ {
                Ok(ValueV::Text("till-char-forward"@))
            } else if t == "till-char-backward"@ {
                Ok(ValueV::Text("till-char-backward"@))
            } else if t == "repeat-find"@ {
                Ok(ValueV::Text("repeat-find"@))
            } else if t == "repeat-find-reverse"@ {
                Ok(ValueV::Text("repeat-find-reverse"@))
            } else if t == "line-start"@ {
                Ok(ValueV::Text("line-start"@))
            } else if t == "first-non-blank"@ {
                Ok(ValueV::Text("first-non-blank"@))
            } else if t == "line-end"@ {
                Ok(ValueV::Text("line-end"@))
            } else if t == "buffer-start"@ {
                Ok(ValueV::Text("buffer-start"@))
            } else if t == "buffer-end"@ {
                Ok(ValueV::Text("buffer-end"@))
            } else if t == "paragraph-forward"@ {
                Ok(ValueV::Text("paragraph-forward"@))
            } else if t == "paragraph-backward"@ {
                Ok(ValueV::Text("paragraph-backward"@))
            } else if t == "matching-bracket"@ {
                Ok(ValueV::Text("matching-bracket"@))
            } else if t == "screen-top"@ {
                Ok(ValueV::Text("screen-top"@))
            } else if t == "screen-middle"@ {
                Ok(ValueV::Text("screen-middle"@))
            } else if t == "screen-bottom"@ {
                Ok(ValueV::Text("screen-bottom"@))
            } else if t == "half-page-down"@ {
                Ok(ValueV::Text("half-page-down"@))
            } else if t == "half-page-up"@ {
                Ok(ValueV::Text("half-page-up"@))
            } else if t == "search-next"@ {
                Ok(ValueV::Text("search-next"@))
            } else if t == "search-prev"@ {
                Ok(ValueV::Text("search-prev"@))
            } else {
                Err(WireErrorV::Tag { got: t, expected: motion_tags_v() })
            },
            _ => Err(shape("text"@)),
        }
    }

    open spec fn optional() -> bool {
        false
    }

    fn to_value(&self) -> (r: Value) {
        let s: &'static str = match self {
            Motion::CharLeft => "char-left",
            Motion::CharRight => "char-right",
            Motion::LineUp => "line-up",
            Motion::LineDown => "line-down",
            Motion::WordForward => "word-forward",
            Motion::WordBackward => "word-backward",
            Motion::WordEnd => "word-end",
            Motion::BigWordForward => "big-word-forward",
            Motion::BigWordBackward => "big-word-backward",
            Motion::BigWordEnd => "big-word-end",
            Motion::FindCharForward => "find-char-forward",
            Motion::FindCharBackward => "find-char-backward",
            Motion::TillCharForward => "till-char-forward",
            Motion::TillCharBackward => "till-char-backward",
            Motion::RepeatFind => "repeat-find",
            Motion::RepeatFindReverse => "repeat-find-reverse",
            Motion::LineStart => "line-start",
            Motion::FirstNonBlank => "first-non-blank",
            Motion::LineEnd => "line-end",
            Motion::BufferStart => "buffer-start",
            Motion::BufferEnd => "buffer-end",
            Motion::ParagraphForward => "paragraph-forward",
            Motion::ParagraphBackward => "paragraph-backward",
            Motion::MatchingBracket => "matching-bracket",
            Motion::ScreenTop => "screen-top",
            Motion::ScreenMiddle => "screen-middle",
            Motion::ScreenBottom => "screen-bottom",
            Motion::HalfPageDown => "half-page-down",
            Motion::HalfPageUp => "half-page-up",
            Motion::SearchNext => "search-next",
            Motion::SearchPrev => "search-prev",
        };
        let r = Value::Text(String::from_str(s));
        proof {
            lemma_value_view(r);
        }
        r
    }

    fn from_value(v: &Value) -> (r: Result<Self, WireError>) {
        proof {
            lemma_value_view(*v);
        }
        match v {
            Value::Text(t) => if str_eq(t.as_str(), "char-left") {
                    Ok(Motion::CharLeft)
                } else if str_eq(t.as_str(), "char-right") {
                    Ok(Motion::CharRight)
                } else if str_eq(t.as_str(), "line-up") {
                    Ok(Motion::LineUp)
                } else if str_eq(t.as_str(), "line-down") {
                    Ok(Motion::LineDown)
                } else if str_eq(t.as_str(), "word-forward") {
                    Ok(Motion::WordForward)
                } else if str_eq(t.as_str(), "word-backward") {
                    Ok(Motion::WordBackward)
                } else if str_eq(t.as_str(), "word-end") {
                    Ok(Motion::WordEnd)
                } else if str_eq(t.as_str(), "big-word-forward") {
                    Ok(Motion::BigWordForward)
                } else if str_eq(t.as_str(), "big-word-backward") {
                    Ok(Motion::BigWordBackward)
                } else if str_eq(t.as_str(), "big-word-end") {
                    Ok(Motion::BigWordEnd)
                } else if str_eq(t.as_str(), "find-char-forward") {
                    Ok(Motion::FindCharForward)
                } else if str_eq(t.as_str(), "find-char-backward") {
                    Ok(Motion::FindCharBackward)
                } else if str_eq(t.as_str(), "till-char-forward") {
                    Ok(Motion::TillCharForward)
                } else if str_eq(t.as_str(), "till-char-backward") {
                    Ok(Motion::TillCharBackward)
                } else if str_eq(t.as_str(), "repeat-find") {
                    Ok(Motion::RepeatFind)
                } else if str_eq(t.as_str(), "repeat-find-reverse") {
                    Ok(Motion::RepeatFindReverse)
                } else if str_eq(t.as_str(), "line-start") {
                    Ok(Motion::LineStart)
                } else if str_eq(t.as_str(), "first-non-blank") {
                    Ok(Motion::FirstNonBlank)
                } else if str_eq(t.as_str(), "line-end") {
                    Ok(Motion::LineEnd)
                } else if str_eq(t.as_str(), "buffer-start") {
                    Ok(Motion::BufferStart)
                } else if str_eq(t.as_str(), "buffer-end") {
                    Ok(Motion::BufferEnd)
                } else if str_eq(t.as_str(), "paragraph-forward") {
                    Ok(Motion::ParagraphForward)
                } else if str_eq(t.as_str(), "paragraph-backward") {
                    Ok(Motion::ParagraphBackward)
                } else if str_eq(t.as_str(), "matching-bracket") {
                    Ok(Motion::MatchingBracket)
                } else if str_eq(t.as_str(), "screen-top") {
                    Ok(Motion::ScreenTop)
                } else if str_eq(t.as_str(), "screen-middle") {
                    Ok(Motion::ScreenMiddle)
                } else if str_eq(t.as_str(), "screen-bottom") {
                    Ok(Motion::ScreenBottom)
                } else if str_eq(t.as_str(), "half-page-down") {
                    Ok(Motion::HalfPageDown)
                } else if str_eq(t.as_str(), "half-page-up") {
                    Ok(Motion::HalfPageUp)
                } else if str_eq(t.as_str(), "search-next") {
                    Ok(Motion::SearchNext)
                } else if str_eq(t.as_str(), "search-prev") {
                    Ok(Motion::SearchPrev)
                } else {
                    Err(WireError::Tag { got: t.clone(), expected: motion_tags() })
                },
            _ => Err(WireError::Shape { expected: "text" }),
        }
    }

    fn is_optional() -> (r: bool) {
        false
    }

    proof fn lemma_wire_round_trip(x: Self) {
        reveal_strlit("big-word-backward");
        reveal_strlit("big-word-end");
        reveal_strlit("big-word-forward");
        reveal_strlit("buffer-end");
        reveal_strlit("buffer-start");
        reveal_strlit("char-left");
        reveal_strlit("char-right");
        reveal_strlit("find-char-backward");
        reveal_strlit("find-char-forward");
        reveal_strlit("first-non-blank");
        reveal_strlit("half-page-down");
        reveal_strlit("half-page-up");
        reveal_strlit("line-down");
        reveal_strlit("line-end");
        reveal_strlit("line-start");
        reveal_strlit("line-up");
        reveal_strlit("matching-bracket");
        reveal_strlit("paragraph-backward");
        reveal_strlit("paragraph-forward");
        reveal_strlit("repeat-find");
        reveal_strlit("repeat-find-reverse");
        reveal_strlit("screen-bottom");
        reveal_strlit("screen-middle");
        reveal_strlit("screen-top");
        reveal_strlit("search-next");
        reveal_strlit("search-prev");
        reveal_strlit("till-char-backward");
        reveal_strlit("till-char-forward");
        reveal_strlit("word-backward");
        reveal_strlit("word-end");
        reveal_strlit("word-forward");
        match x {
            Motion::CharLeft => {
            },
            Motion::CharRight => {
                assert("char-right"@[5] != "char-left"@[5]);
            },
            Motion::LineUp => {
                assert("line-up"@[0] != "char-left"@[0]);
                assert("line-up"@[0] != "char-right"@[0]);
            },
            Motion::LineDown => {
                assert("line-down"@[0] != "char-left"@[0]);
                assert("line-down"@[0] != "char-right"@[0]);
                assert("line-down"@[5] != "line-up"@[5]);
            },
            Motion::WordForward => {
                assert("word-forward"@[0] != "char-left"@[0]);
                assert("word-forward"@[0] != "char-right"@[0]);
                assert("word-forward"@[0] != "line-up"@[0]);
                assert("word-forward"@[0] != "line-down"@[0]);
            },
            Motion::WordBackward => {
                assert("word-backward"@[0] != "char-left"@[0]);
                assert("word-backward"@[0] != "char-right"@[0]);
                assert("word-backward"@[0] != "line-up"@[0]);
                assert("word-backward"@[0] != "line-down"@[0]);
                assert("word-backward"@[5] != "word-forward"@[5]);
            },
            Motion::WordEnd => {
                assert("word-end"@[0] != "char-left"@[0]);
                assert("word-end"@[0] != "char-right"@[0]);
                assert("word-end"@[0] != "line-up"@[0]);
                assert("word-end"@[0] != "line-down"@[0]);
                assert("word-end"@[5] != "word-forward"@[5]);
                assert("word-end"@[5] != "word-backward"@[5]);
            },
            Motion::BigWordForward => {
                assert("big-word-forward"@[0] != "char-left"@[0]);
                assert("big-word-forward"@[0] != "char-right"@[0]);
                assert("big-word-forward"@[0] != "line-up"@[0]);
                assert("big-word-forward"@[0] != "line-down"@[0]);
                assert("big-word-forward"@[0] != "word-forward"@[0]);
                assert("big-word-forward"@[0] != "word-backward"@[0]);
                assert("big-word-forward"@[0] != "word-end"@[0]);
            },
            Motion::BigWordBackward => {
                assert("big-word-backward"@[0] != "char-left"@[0]);
                assert("big-word-backward"@[0] != "char-right"@[0]);
                assert("big-word-backward"@[0] != "line-up"@[0]);
                assert("big-word-backward"@[0] != "line-down"@[0]);
                assert("big-word-backward"@[0] != "word-forward"@[0]);
                assert("big-word-backward"@[0] != "word-backward"@[0]);
                assert("big-word-backward"@[0] != "word-end"@[0]);
                assert("big-word-backward"@[9] != "big-word-forward"@[9]);
            },
            Motion::BigWordEnd => {
                assert("big-word-end"@[0] != "char-left"@[0]);
                assert("big-word-end"@[0] != "char-right"@[0]);
                assert("big-word-end"@[0] != "line-up"@[0]);
                assert("big-word-end"@[0] != "line-down"@[0]);
                assert("big-word-end"@[0] != "word-forward"@[0]);
                assert("big-word-end"@[0] != "word-backward"@[0]);
                assert("big-word-end"@[0] != "word-end"@[0]);
                assert("big-word-end"@[9] != "big-word-forward"@[9]);
                assert("big-word-end"@[9] != "big-word-backward"@[9]);
            },
            Motion::FindCharForward => {
                assert("find-char-forward"@[0] != "char-left"@[0]);
                assert("find-char-forward"@[0] != "char-right"@[0]);
                assert("find-char-forward"@[0] != "line-up"@[0]);
                assert("find-char-forward"@[0] != "line-down"@[0]);
                assert("find-char-forward"@[0] != "word-forward"@[0]);
                assert("find-char-forward"@[0] != "word-backward"@[0]);
                assert("find-char-forward"@[0] != "word-end"@[0]);
                assert("find-char-forward"@[0] != "big-word-forward"@[0]);
                assert("find-char-forward"@[0] != "big-word-backward"@[0]);
                assert("find-char-forward"@[0] != "big-word-end"@[0]);
            },
            Motion::FindCharBackward => {
                assert("find-char-backward"@[0] != "char-left"@[0]);
                assert("find-char-backward"@[0] != "char-right"@[0]);
                assert("find-char-backward"@[0] != "line-up"@[0]);
                assert("find-char-backward"@[0] != "line-down"@[0]);
                assert("find-char-backward"@[0] != "word-forward"@[0]);
                assert("find-char-backward"@[0] != "word-backward"@[0]);
                assert("find-char-backward"@[0] != "word-end"@[0]);
                assert("find-char-backward"@[0] != "big-word-forward"@[0]);
                assert("find-char-backward"@[0] != "big-word-backward"@[0]);
                assert("find-char-backward"@[0] != "big-word-end"@[0]);
                assert("find-char-backward"@[10] != "find-char-forward"@[10]);
            },
            Motion::TillCharForward => {
                assert("till-char-forward"@[0] != "char-left"@[0]);
                assert("till-char-forward"@[0] != "char-right"@[0]);
                assert("till-char-forward"@[0] != "line-up"@[0]);
                assert("till-char-forward"@[0] != "line-down"@[0]);
                assert("till-char-forward"@[0] != "word-forward"@[0]);
                assert("till-char-forward"@[0] != "word-backward"@[0]);
                assert("till-char-forward"@[0] != "word-end"@[0]);
                assert("till-char-forward"@[0] != "big-word-forward"@[0]);
                assert("till-char-forward"@[0] != "big-word-backward"@[0]);
                assert("till-char-forward"@[0] != "big-word-end"@[0]);
                assert("till-char-forward"@[0] != "find-char-forward"@[0]);
                assert("till-char-forward"@[0] != "find-char-backward"@[0]);
            },
            Motion::TillCharBackward => {
                assert("till-char-backward"@[0] != "char-left"@[0]);
                assert("till-char-backward"@[0] != "char-right"@[0]);
                assert("till-char-backward"@[0] != "line-up"@[0]);
                assert("till-char-backward"@[0] != "line-down"@[0]);
                assert("till-char-backward"@[0] != "word-forward"@[0]);
                assert("till-char-backward"@[0] != "word-backward"@[0]);
                assert("till-char-backward"@[0] != "word-end"@[0]);
                assert("till-char-backward"@[0] != "big-word-forward"@[0]);
                assert("till-char-backward"@[0] != "big-word-backward"@[0]);
                assert("till-char-backward"@[0] != "big-word-end"@[0]);
                assert("till-char-backward"@[0] != "find-char-forward"@[0]);
                assert("till-char-backward"@[0] != "find-char-backward"@[0]);
                assert("till-char-backward"@[10] != "till-char-forward"@[10]);
            },
            Motion::RepeatFind => {
                assert("repeat-find"@[0] != "char-left"@[0]);
                assert("repeat-find"@[0] != "char-right"@[0]);
                assert("repeat-find"@[0] != "line-up"@[0]);
                assert("repeat-find"@[0] != "line-down"@[0]);
                assert("repeat-find"@[0] != "word-forward"@[0]);
                assert("repeat-find"@[0] != "word-backward"@[0]);
                assert("repeat-find"@[0] != "word-end"@[0]);
                assert("repeat-find"@[0] != "big-word-forward"@[0]);
                assert("repeat-find"@[0] != "big-word-backward"@[0]);
                assert("repeat-find"@[0] != "big-word-end"@[0]);
                assert("repeat-find"@[0] != "find-char-forward"@[0]);
                assert("repeat-find"@[0] != "find-char-backward"@[0]);
                assert("repeat-find"@[0] != "till-char-forward"@[0]);
                assert("repeat-find"@[0] != "till-char-backward"@[0]);
            },
            Motion::RepeatFindReverse => {
                assert("repeat-find-reverse"@[0] != "char-left"@[0]);
                assert("repeat-find-reverse"@[0] != "char-right"@[0]);
                assert("repeat-find-reverse"@[0] != "line-up"@[0]);
                assert("repeat-find-reverse"@[0] != "line-down"@[0]);
                assert("repeat-find-reverse"@[0] != "word-forward"@[0]);
                assert("repeat-find-reverse"@[0] != "word-backward"@[0]);
                assert("repeat-find-reverse"@[0] != "word-end"@[0]);
                assert("repeat-find-reverse"@[0] != "big-word-forward"@[0]);
                assert("repeat-find-reverse"@[0] != "big-word-backward"@[0]);
                assert("repeat-find-reverse"@[0] != "big-word-end"@[0]);
                assert("repeat-find-reverse"@[0] != "find-char-forward"@[0]);
                assert("repeat-find-reverse"@[0] != "find-char-backward"@[0]);
                assert("repeat-find-reverse"@[0] != "till-char-forward"@[0]);
                assert("repeat-find-reverse"@[0] != "till-char-backward"@[0]);
                assert("repeat-find-reverse"@.len() != "repeat-find"@.len());
            },
            Motion::LineStart => {
                assert("line-start"@[0] != "char-left"@[0]);
                assert("line-start"@[0] != "char-right"@[0]);
                assert("line-start"@[5] != "line-up"@[5]);
                assert("line-start"@[5] != "line-down"@[5]);
                assert("line-start"@[0] != "word-forward"@[0]);
                assert("line-start"@[0] != "word-backward"@[0]);
                assert("line-start"@[0] != "word-end"@[0]);
                assert("line-start"@[0] != "big-word-forward"@[0]);
                assert("line-start"@[0] != "big-word-backward"@[0]);
                assert("line-start"@[0] != "big-word-end"@[0]);
                assert("line-start"@[0] != "find-char-forward"@[0]);
                assert("line-start"@[0] != "find-char-backward"@[0]);
                assert("line-start"@[0] != "till-char-forward"@[0]);
                assert("line-start"@[0] != "till-char-backward"@[0]);
                assert("line-start"@[0] != "repeat-find"@[0]);
                assert("line-start"@[0] != "repeat-find-reverse"@[0]);
            },
            Motion::FirstNonBlank => {
                assert("first-non-blank"@[0] != "char-left"@[0]);
                assert("first-non-blank"@[0] != "char-right"@[0]);
                assert("first-non-blank"@[0] != "line-up"@[0]);
                assert("first-non-blank"@[0] != "line-down"@[0]);
                assert("first-non-blank"@[0] != "word-forward"@[0]);
                assert("first-non-blank"@[0] != "word-backward"@[0]);
                assert("first-non-blank"@[0] != "word-end"@[0]);
                assert("first-non-blank"@[0] != "big-word-forward"@[0]);
                assert("first-non-blank"@[0] != "big-word-backward"@[0]);
                assert("first-non-blank"@[0] != "big-word-end"@[0]);
                assert("first-non-blank"@[2] != "find-char-forward"@[2]);
                assert("first-non-blank"@[2] != "find-char-backward"@[2]);
                assert("first-non-blank"@[0] != "till-char-forward"@[0]);
                assert("first-non-blank"@[0] != "till-char-backward"@[0]);
                assert("first-non-blank"@[0] != "repeat-find"@[0]);
                assert("first-non-blank"@[0] != "repeat-find-reverse"@[0]);
                assert("first-non-blank"@[0] != "line-start"@[0]);
            },
            Motion::LineEnd => {
                assert("line-end"@[0] != "char-left"@[0]);
                assert("line-end"@[0] != "char-right"@[0]);
                assert("line-end"@[5] != "line-up"@[5]);
                assert("line-end"@[5] != "line-down"@[5]);
                assert("line-end"@[0] != "word-forward"@[0]);
                assert("line-end"@[0] != "word-backward"@[0]);
                assert("line-end"@[0] != "word-end"@[0]);
                assert("line-end"@[0] != "big-word-forward"@[0]);
                assert("line-end"@[0] != "big-word-backward"@[0]);
                assert("line-end"@[0] != "big-word-end"@[0]);
                assert("line-end"@[0] != "find-char-forward"@[0]);
                assert("line-end"@[0] != "find-char-backward"@[0]);
                assert("line-end"@[0] != "till-char-forward"@[0]);
                assert("line-end"@[0] != "till-char-backward"@[0]);
                assert("line-end"@[0] != "repeat-find"@[0]);
                assert("line-end"@[0] != "repeat-find-reverse"@[0]);
                assert("line-end"@[5] != "line-start"@[5]);
                assert("line-end"@[0] != "first-non-blank"@[0]);
            },
            Motion::BufferStart => {
                assert("buffer-start"@[0] != "char-left"@[0]);
                assert("buffer-start"@[0] != "char-right"@[0]);
                assert("buffer-start"@[0] != "line-up"@[0]);
                assert("buffer-start"@[0] != "line-down"@[0]);
                assert("buffer-start"@[0] != "word-forward"@[0]);
                assert("buffer-start"@[0] != "word-backward"@[0]);
                assert("buffer-start"@[0] != "word-end"@[0]);
                assert("buffer-start"@[1] != "big-word-forward"@[1]);
                assert("buffer-start"@[1] != "big-word-backward"@[1]);
                assert("buffer-start"@[1] != "big-word-end"@[1]);
                assert("buffer-start"@[0] != "find-char-forward"@[0]);
                assert("buffer-start"@[0] != "find-char-backward"@[0]);
                assert("buffer-start"@[0] != "till-char-forward"@[0]);
                assert("buffer-start"@[0] != "till-char-backward"@[0]);
                assert("buffer-start"@[0] != "repeat-find"@[0]);
                assert("buffer-start"@[0] != "repeat-find-reverse"@[0]);
                assert("buffer-start"@[0] != "line-start"@[0]);
                assert("buffer-start"@[0] != "first-non-blank"@[0]);
                assert("buffer-start"@[0] != "line-end"@[0]);
            },
            Motion::BufferEnd => {
                assert("buffer-end"@[0] != "char-left"@[0]);
                assert("buffer-end"@[0] != "char-right"@[0]);
                assert("buffer-end"@[0] != "line-up"@[0]);
                assert("buffer-end"@[0] != "line-down"@[0]);
                assert("buffer-end"@[0] != "word-forward"@[0]);
                assert("buffer-end"@[0] != "word-backward"@[0]);
                assert("buffer-end"@[0] != "word-end"@[0]);
                assert("buffer-end"@[1] != "big-word-forward"@[1]);
                assert("buffer-end"@[1] != "big-word-backward"@[1]);
                assert("buffer-end"@[1] != "big-word-end"@[1]);
                assert("buffer-end"@[0] != "find-char-forward"@[0]);
                assert("buffer-end"@[0] != "find-char-backward"@[0]);
                assert("buffer-end"@[0] != "till-char-forward"@[0]);
                assert("buffer-end"@[0] != "till-char-backward"@[0]);
                assert("buffer-end"@[0] != "repeat-find"@[0]);
                assert("buffer-end"@[0] != "repeat-find-reverse"@[0]);
                assert("buffer-end"@[0] != "line-start"@[0]);
                assert("buffer-end"@[0] != "first-non-blank"@[0]);
                assert("buffer-end"@[0] != "line-end"@[0]);
                assert("buffer-end"@[7] != "buffer-start"@[7]);
            },
            Motion::ParagraphForward => {
                assert("paragraph-forward"@[0] != "char-left"@[0]);
                assert("paragraph-forward"@[0] != "char-right"@[0]);
                assert("paragraph-forward"@[0] != "line-up"@[0]);
                assert("paragraph-forward"@[0] != "line-down"@[0]);
                assert("paragraph-forward"@[0] != "word-forward"@[0]);
                assert("paragraph-forward"@[0] != "word-backward"@[0]);
                assert("paragraph-forward"@[0] != "word-end"@[0]);
                assert("paragraph-forward"@[0] != "big-word-forward"@[0]);
                assert("paragraph-forward"@[0] != "big-word-backward"@[0]);
                assert("paragraph-forward"@[0] != "big-word-end"@[0]);
                assert("paragraph-forward"@[0] != "find-char-forward"@[0]);
                assert("paragraph-forward"@[0] != "find-char-backward"@[0]);
                assert("paragraph-forward"@[0] != "till-char-forward"@[0]);
                assert("paragraph-forward"@[0] != "till-char-backward"@[0]);
                assert("paragraph-forward"@[0] != "repeat-find"@[0]);
                assert("paragraph-forward"@[0] != "repeat-find-reverse"@[0]);
                assert("paragraph-forward"@[0] != "line-start"@[0]);
                assert("paragraph-forward"@[0] != "first-non-blank"@[0]);
                assert("paragraph-forward"@[0] != "line-end"@[0]);
                assert("paragraph-forward"@[0] != "buffer-start"@[0]);
                assert("paragraph-forward"@[0] != "buffer-end"@[0]);
            },
            Motion::ParagraphBackward => {
                assert("paragraph-backward"@[0] != "char-left"@[0]);
                assert("paragraph-backward"@[0] != "char-right"@[0]);
                assert("paragraph-backward"@[0] != "line-up"@[0]);
                assert("paragraph-backward"@[0] != "line-down"@[0]);
                assert("paragraph-backward"@[0] != "word-forward"@[0]);
                assert("paragraph-backward"@[0] != "word-backward"@[0]);
                assert("paragraph-backward"@[0] != "word-end"@[0]);
                assert("paragraph-backward"@[0] != "big-word-forward"@[0]);
                assert("paragraph-backward"@[0] != "big-word-backward"@[0]);
                assert("paragraph-backward"@[0] != "big-word-end"@[0]);
                assert("paragraph-backward"@[0] != "find-char-forward"@[0]);
                assert("paragraph-backward"@[0] != "find-char-backward"@[0]);
                assert("paragraph-backward"@[0] != "till-char-forward"@[0]);
                assert("paragraph-backward"@[0] != "till-char-backward"@[0]);
                assert("paragraph-backward"@[0] != "repeat-find"@[0]);
                assert("paragraph-backward"@[0] != "repeat-find-reverse"@[0]);
                assert("paragraph-backward"@[0] != "line-start"@[0]);
                assert("paragraph-backward"@[0] != "first-non-blank"@[0]);
                assert("paragraph-backward"@[0] != "line-end"@[0]);
                assert("paragraph-backward"@[0] != "buffer-start"@[0]);
                assert("paragraph-backward"@[0] != "buffer-end"@[0]);
                assert("paragraph-backward"@[10] != "paragraph-forward"@[10]);
            },
            Motion::MatchingBracket => {
                assert("matching-bracket"@[0] != "char-left"@[0]);
                assert("matching-bracket"@[0] != "char-right"@[0]);
                assert("matching-bracket"@[0] != "line-up"@[0]);
                assert("matching-bracket"@[0] != "line-down"@[0]);
                assert("matching-bracket"@[0] != "word-forward"@[0]);
                assert("matching-bracket"@[0] != "word-backward"@[0]);
                assert("matching-bracket"@[0] != "word-end"@[0]);
                assert("matching-bracket"@[0] != "big-word-forward"@[0]);
                assert("matching-bracket"@[0] != "big-word-backward"@[0]);
                assert("matching-bracket"@[0] != "big-word-end"@[0]);
                assert("matching-bracket"@[0] != "find-char-forward"@[0]);
                assert("matching-bracket"@[0] != "find-char-backward"@[0]);
                assert("matching-bracket"@[0] != "till-char-forward"@[0]);
                assert("matching-bracket"@[0] != "till-char-backward"@[0]);
                assert("matching-bracket"@[0] != "repeat-find"@[0]);
                assert("matching-bracket"@[0] != "repeat-find-reverse"@[0]);
                assert("matching-bracket"@[0] != "line-start"@[0]);
                assert("matching-bracket"@[0] != "first-non-blank"@[0]);
                assert("matching-bracket"@[0] != "line-end"@[0]);
                assert("matching-bracket"@[0] != "buffer-start"@[0]);
                assert("matching-bracket"@[0] != "buffer-end"@[0]);
                assert("matching-bracket"@[0] != "paragraph-forward"@[0]);
                assert("matching-bracket"@[0] != "paragraph-backward"@[0]);
            },
            Motion::ScreenTop => {
                assert("screen-top"@[0] != "char-left"@[0]);
                assert("screen-top"@[0] != "char-right"@[0]);
                assert("screen-top"@[0] != "line-up"@[0]);
                assert("screen-top"@[0] != "line-down"@[0]);
                assert("screen-top"@[0] != "word-forward"@[0]);
                assert("screen-top"@[0] != "word-backward"@[0]);
                assert("screen-top"@[0] != "word-end"@[0]);
                assert("screen-top"@[0] != "big-word-forward"@[0]);
                assert("screen-top"@[0] != "big-word-backward"@[0]);
                assert("screen-top"@[0] != "big-word-end"@[0]);
                assert("screen-top"@[0] != "find-char-forward"@[0]);
                assert("screen-top"@[0] != "find-char-backward"@[0]);
                assert("screen-top"@[0] != "till-char-forward"@[0]);
                assert("screen-top"@[0] != "till-char-backward"@[0]);
                assert("screen-top"@[0] != "repeat-find"@[0]);
                assert("screen-top"@[0] != "repeat-find-reverse"@[0]);
                assert("screen-top"@[0] != "line-start"@[0]);
                assert("screen-top"@[0] != "first-non-blank"@[0]);
                assert("screen-top"@[0] != "line-end"@[0]);
                assert("screen-top"@[0] != "buffer-start"@[0]);
                assert("screen-top"@[0] != "buffer-end"@[0]);
                assert("screen-top"@[0] != "paragraph-forward"@[0]);
                assert("screen-top"@[0] != "paragraph-backward"@[0]);
                assert("screen-top"@[0] != "matching-bracket"@[0]);
            },
            Motion::ScreenMiddle => {
                assert("screen-middle"@[0] != "char-left"@[0]);
                assert("screen-middle"@[0] != "char-right"@[0]);
                assert("screen-middle"@[0] != "line-up"@[0]);
                assert("screen-middle"@[0] != "line-down"@[0]);
                assert("screen-middle"@[0] != "word-forward"@[0]);
                assert("screen-middle"@[0] != "word-backward"@[0]);
                assert("screen-middle"@[0] != "word-end"@[0]);
                assert("screen-middle"@[0] != "big-word-forward"@[0]);
                assert("screen-middle"@[0] != "big-word-backward"@[0]);
                assert("screen-middle"@[0] != "big-word-end"@[0]);
                assert("screen-middle"@[0] != "find-char-forward"@[0]);
                assert("screen-middle"@[0] != "find-char-backward"@[0]);
                assert("screen-middle"@[0] != "till-char-forward"@[0]);
                assert("screen-middle"@[0] != "till-char-backward"@[0]);
                assert("screen-middle"@[0] != "repeat-find"@[0]);
                assert("screen-middle"@[0] != "repeat-find-reverse"@[0]);
                assert("screen-middle"@[0] != "line-start"@[0]);
                assert("screen-middle"@[0] != "first-non-blank"@[0]);
                assert("screen-middle"@[0] != "line-end"@[0]);
                assert("screen-middle"@[0] != "buffer-start"@[0]);
                assert("screen-middle"@[0] != "buffer-end"@[0]);
                assert("screen-middle"@[0] != "paragraph-forward"@[0]);
                assert("screen-middle"@[0] != "paragraph-backward"@[0]);
                assert("screen-middle"@[0] != "matching-bracket"@[0]);
                assert("screen-middle"@[7] != "screen-top"@[7]);
            },
            Motion::ScreenBottom => {
                assert("screen-bottom"@[0] != "char-left"@[0]);
                assert("screen-bottom"@[0] != "char-right"@[0]);
                assert("screen-bottom"@[0] != "line-up"@[0]);
                assert("screen-bottom"@[0] != "line-down"@[0]);
                assert("screen-bottom"@[0] != "word-forward"@[0]);
                assert("screen-bottom"@[0] != "word-backward"@[0]);
                assert("screen-bottom"@[0] != "word-end"@[0]);
                assert("screen-bottom"@[0] != "big-word-forward"@[0]);
                assert("screen-bottom"@[0] != "big-word-backward"@[0]);
                assert("screen-bottom"@[0] != "big-word-end"@[0]);
                assert("screen-bottom"@[0] != "find-char-forward"@[0]);
                assert("screen-bottom"@[0] != "find-char-backward"@[0]);
                assert("screen-bottom"@[0] != "till-char-forward"@[0]);
                assert("screen-bottom"@[0] != "till-char-backward"@[0]);
                assert("screen-bottom"@[0] != "repeat-find"@[0]);
                assert("screen-bottom"@[0] != "repeat-find-reverse"@[0]);
                assert("screen-bottom"@[0] != "line-start"@[0]);
                assert("screen-bottom"@[0] != "first-non-blank"@[0]);
                assert("screen-bottom"@[0] != "line-end"@[0]);
                assert("screen-bottom"@[0] != "buffer-start"@[0]);
                assert("screen-bottom"@[0] != "buffer-end"@[0]);
                assert("screen-bottom"@[0] != "paragraph-forward"@[0]);
                assert("screen-bottom"@[0] != "paragraph-backward"@[0]);
                assert("screen-bottom"@[0] != "matching-bracket"@[0]);
                assert("screen-bottom"@[7] != "screen-top"@[7]);
                assert("screen-bottom"@[7] != "screen-middle"@[7]);
            },
            Motion::HalfPageDown => {
                assert("half-page-down"@[0] != "char-left"@[0]);
                assert("half-page-down"@[0] != "char-right"@[0]);
                assert("half-page-down"@[0] != "line-up"@[0]);
                assert("half-page-down"@[0] != "line-down"@[0]);
                assert("half-page-down"@[0] != "word-forward"@[0]);
                assert("half-page-down"@[0] != "word-backward"@[0]);
                assert("half-page-down"@[0] != "word-end"@[0]);
                assert("half-page-down"@[0] != "big-word-forward"@[0]);
                assert("half-page-down"@[0] != "big-word-backward"@[0]);
                assert("half-page-down"@[0] != "big-word-end"@[0]);
                assert("half-page-down"@[0] != "find-char-forward"@[0]);
                assert("half-page-down"@[0] != "find-char-backward"@[0]);
                assert("half-page-down"@[0] != "till-char-forward"@[0]);
                assert("half-page-down"@[0] != "till-char-backward"@[0]);
                assert("half-page-down"@[0] != "repeat-find"@[0]);
                assert("half-page-down"@[0] != "repeat-find-reverse"@[0]);
                assert("half-page-down"@[0] != "line-start"@[0]);
                assert("half-page-down"@[0] != "first-non-blank"@[0]);
                assert("half-page-down"@[0] != "line-end"@[0]);
                assert("half-page-down"@[0] != "buffer-start"@[0]);
                assert("half-page-down"@[0] != "buffer-end"@[0]);
                assert("half-page-down"@[0] != "paragraph-forward"@[0]);
                assert("half-page-down"@[0] != "paragraph-backward"@[0]);
                assert("half-page-down"@[0] != "matching-bracket"@[0]);
                assert("half-page-down"@[0] != "screen-top"@[0]);
                assert("half-page-down"@[0] != "screen-middle"@[0]);
                assert("half-page-down"@[0] != "screen-bottom"@[0]);
            },
            Motion::HalfPageUp => {
                assert("half-page-up"@[0] != "char-left"@[0]);
                assert("half-page-up"@[0] != "char-right"@[0]);
                assert("half-page-up"@[0] != "line-up"@[0]);
                assert("half-page-up"@[0] != "line-down"@[0]);
                assert("half-page-up"@[0] != "word-forward"@[0]);
                assert("half-page-up"@[0] != "word-backward"@[0]);
                assert("half-page-up"@[0] != "word-end"@[0]);
                assert("half-page-up"@[0] != "big-word-forward"@[0]);
                assert("half-page-up"@[0] != "big-word-backward"@[0]);
                assert("half-page-up"@[0] != "big-word-end"@[0]);
                assert("half-page-up"@[0] != "find-char-forward"@[0]);
                assert("half-page-up"@[0] != "find-char-backward"@[0]);
                assert("half-page-up"@[0] != "till-char-forward"@[0]);
                assert("half-page-up"@[0] != "till-char-backward"@[0]);
                assert("half-page-up"@[0] != "repeat-find"@[0]);
                assert("half-page-up"@[0] != "repeat-find-reverse"@[0]);
                assert("half-page-up"@[0] != "line-start"@[0]);
                assert("half-page-up"@[0] != "first-non-blank"@[0]);
                assert("half-page-up"@[0] != "line-end"@[0]);
                assert("half-page-up"@[0] != "buffer-start"@[0]);
                assert("half-page-up"@[0] != "buffer-end"@[0]);
                assert("half-page-up"@[0] != "paragraph-forward"@[0]);
                assert("half-page-up"@[0] != "paragraph-backward"@[0]);
                assert("half-page-up"@[0] != "matching-bracket"@[0]);
                assert("half-page-up"@[0] != "screen-top"@[0]);
                assert("half-page-up"@[0] != "screen-middle"@[0]);
                assert("half-page-up"@[0] != "screen-bottom"@[0]);
                assert("half-page-up"@[10] != "half-page-down"@[10]);
            },
            Motion::SearchNext => {
                assert("search-next"@[0] != "char-left"@[0]);
                assert("search-next"@[0] != "char-right"@[0]);
                assert("search-next"@[0] != "line-up"@[0]);
                assert("search-next"@[0] != "line-down"@[0]);
                assert("search-next"@[0] != "word-forward"@[0]);
                assert("search-next"@[0] != "word-backward"@[0]);
                assert("search-next"@[0] != "word-end"@[0]);
                assert("search-next"@[0] != "big-word-forward"@[0]);
                assert("search-next"@[0] != "big-word-backward"@[0]);
                assert("search-next"@[0] != "big-word-end"@[0]);
                assert("search-next"@[0] != "find-char-forward"@[0]);
                assert("search-next"@[0] != "find-char-backward"@[0]);
                assert("search-next"@[0] != "till-char-forward"@[0]);
                assert("search-next"@[0] != "till-char-backward"@[0]);
                assert("search-next"@[0] != "repeat-find"@[0]);
                assert("search-next"@[0] != "repeat-find-reverse"@[0]);
                assert("search-next"@[0] != "line-start"@[0]);
                assert("search-next"@[0] != "first-non-blank"@[0]);
                assert("search-next"@[0] != "line-end"@[0]);
                assert("search-next"@[0] != "buffer-start"@[0]);
                assert("search-next"@[0] != "buffer-end"@[0]);
                assert("search-next"@[0] != "paragraph-forward"@[0]);
                assert("search-next"@[0] != "paragraph-backward"@[0]);
                assert("search-next"@[0] != "matching-bracket"@[0]);
                assert("search-next"@[1] != "screen-top"@[1]);
                assert("search-next"@[1] != "screen-middle"@[1]);
                assert("search-next"@[1] != "screen-bottom"@[1]);
                assert("search-next"@[0] != "half-page-down"@[0]);
                assert("search-next"@[0] != "half-page-up"@[0]);
            },
            Motion::SearchPrev => {
                assert("search-prev"@[0] != "char-left"@[0]);
                assert("search-prev"@[0] != "char-right"@[0]);
                assert("search-prev"@[0] != "line-up"@[0]);
                assert("search-prev"@[0] != "line-down"@[0]);
                assert("search-prev"@[0] != "word-forward"@[0]);
                assert("search-prev"@[0] != "word-backward"@[0]);
                assert("search-prev"@[0] != "word-end"@[0]);
                assert("search-prev"@[0] != "big-word-forward"@[0]);
                assert("search-prev"@[0] != "big-word-backward"@[0]);
                assert("search-prev"@[0] != "big-word-end"@[0]);
                assert("search-prev"@[0] != "find-char-forward"@[0]);
                assert("search-prev"@[0] != "find-char-backward"@[0]);
                assert("search-prev"@[0] != "till-char-forward"@[0]);
                assert("search-prev"@[0] != "till-char-backward"@[0]);
                assert("search-prev"@[0] != "repeat-find"@[0]);
                assert("search-prev"@[0] != "repeat-find-reverse"@[0]);
                assert("search-prev"@[0] != "line-start"@[0]);
                assert("search-prev"@[0] != "first-non-blank"@[0]);
                assert("search-prev"@[0] != "line-end"@[0]);
                assert("search-prev"@[0] != "buffer-start"@[0]);
                assert("search-prev"@[0] != "buffer-end"@[0]);
                assert("search-prev"@[0] != "paragraph-forward"@[0]);
                assert("search-prev"@[0] != "paragraph-backward"@[0]);
                assert("search-prev"@[0] != "matching-bracket"@[0]);
                assert("search-prev"@[1] != "screen-top"@[1]);
                assert("search-prev"@[1] != "screen-middle"@[1]);
                assert("search-prev"@[1] != "screen-bottom"@[1]);
                assert("search-prev"@[0] != "half-page-down"@[0]);
                assert("search-prev"@[0] != "half-page-up"@[0]);
                assert("search-prev"@[7] != "search-next"@[7]);
            },
        }
    }
}
/// The tags [`TextObject`] is spelled with.
pub open spec fn textobject_tags_v() -> Seq<Seq<char>> {
    seq!["word"@, "big-word"@, "sentence"@, "paragraph"@, "delimited"@, "tag"@, "unseen-region"@, "hunk"@, "thread"@, "block"@]
}

fn textobject_tags() -> (r: Vec<&'static str>)
    ensures
        names_view(r@) == textobject_tags_v(),
{
    let mut r: Vec<&'static str> = Vec::new();
    r.push("word");
    r.push("big-word");
    r.push("sentence");
    r.push("paragraph");
    r.push("delimited");
    r.push("tag");
    r.push("unseen-region");
    r.push("hunk");
    r.push("thread");
    r.push("block");
    assert(names_view(r@) =~= textobject_tags_v());
    r
}

impl Wire for TextObject {
    open spec fn wire(&self) -> ValueV {
        ValueV::Text(match self {
            TextObject::Word => "word"@,
            TextObject::BigWord => "big-word"@,
            TextObject::Sentence => "sentence"@,
            TextObject::Paragraph => "paragraph"@,
            TextObject::Delimited => "delimited"@,
            TextObject::Tag => "tag"@,
            TextObject::UnseenRegion => "unseen-region"@,
            TextObject::Hunk => "hunk"@,
            TextObject::Thread => "thread"@,
            TextObject::Block => "block"@,
        })
    }

    open spec fn fits(&self) -> bool {
        true
    }

    open spec fn unwire(v: ValueV) -> Result<ValueV, WireErrorV> {
        match v {
            ValueV::Text(t) => if t == "word"@ {
                Ok(ValueV::Text("word"@))
            } else if t == "big-word"@ {
                Ok(ValueV::Text("big-word"@))
            } else if t == "sentence"@ {
                Ok(ValueV::Text("sentence"@))
            } else if t == "paragraph"@ {
                Ok(ValueV::Text("paragraph"@))
            } else if t == "delimited"@ {
                Ok(ValueV::Text("delimited"@))
            } else if t == "tag"@ {
                Ok(ValueV::Text("tag"@))
            } else if t == "unseen-region"@ {
                Ok(ValueV::Text("unseen-region"@))
            } else if t == "hunk"@ {
                Ok(ValueV::Text("hunk"@))
            } else if t == "thread"@ {
                Ok(ValueV::Text("thread"@))
            } else if t == "block"@ {
                Ok(ValueV::Text("block"@))
            } else {
                Err(WireErrorV::Tag { got: t, expected: textobject_tags_v() })
            },
            _ => Err(shape("text"@)),
        }
    }

    open spec fn optional() -> bool {
        false
    }

    fn to_value(&self) -> (r: Value) {
        let s: &'static str = match self {
            TextObject::Word => "word",
            TextObject::BigWord => "big-word",
            TextObject::Sentence => "sentence",
            TextObject::Paragraph => "paragraph",
            TextObject::Delimited => "delimited",
            TextObject::Tag => "tag",
            TextObject::UnseenRegion => "unseen-region",
            TextObject::Hunk => "hunk",
            TextObject::Thread => "thread",
            TextObject::Block => "block",
        };
        let r = Value::Text(String::from_str(s));
        proof {
            lemma_value_view(r);
        }
        r
    }

    fn from_value(v: &Value) -> (r: Result<Self, WireError>) {
        proof {
            lemma_value_view(*v);
        }
        match v {
            Value::Text(t) => if str_eq(t.as_str(), "word") {
                    Ok(TextObject::Word)
                } else if str_eq(t.as_str(), "big-word") {
                    Ok(TextObject::BigWord)
                } else if str_eq(t.as_str(), "sentence") {
                    Ok(TextObject::Sentence)
                } else if str_eq(t.as_str(), "paragraph") {
                    Ok(TextObject::Paragraph)
                } else if str_eq(t.as_str(), "delimited") {
                    Ok(TextObject::Delimited)
                } else if str_eq(t.as_str(), "tag") {
                    Ok(TextObject::Tag)
                } else if str_eq(t.as_str(), "unseen-region") {
                    Ok(TextObject::UnseenRegion)
                } else if str_eq(t.as_str(), "hunk") {
                    Ok(TextObject::Hunk)
                } else if str_eq(t.as_str(), "thread") {
                    Ok(TextObject::Thread)
                } else if str_eq(t.as_str(), "block") {
                    Ok(TextObject::Block)
                } else {
                    Err(WireError::Tag { got: t.clone(), expected: textobject_tags() })
                },
            _ => Err(WireError::Shape { expected: "text" }),
        }
    }

    fn is_optional() -> (r: bool) {
        false
    }

    proof fn lemma_wire_round_trip(x: Self) {
        reveal_strlit("big-word");
        reveal_strlit("block");
        reveal_strlit("delimited");
        reveal_strlit("hunk");
        reveal_strlit("paragraph");
        reveal_strlit("sentence");
        reveal_strlit("tag");
        reveal_strlit("thread");
        reveal_strlit("unseen-region");
        reveal_strlit("word");
        match x {
            TextObject::Word => {
            },
            TextObject::BigWord => {
                assert("big-word"@[0] != "word"@[0]);
            },
            TextObject::Sentence => {
                assert("sentence"@[0] != "word"@[0]);
                assert("sentence"@[0] != "big-word"@[0]);
            },
            TextObject::Paragraph => {
                assert("paragraph"@[0] != "word"@[0]);
                assert("paragraph"@[0] != "big-word"@[0]);
                assert("paragraph"@[0] != "sentence"@[0]);
            },
            TextObject::Delimited => {
                assert("delimited"@[0] != "word"@[0]);
                assert("delimited"@[0] != "big-word"@[0]);
                assert("delimited"@[0] != "sentence"@[0]);
                assert("delimited"@[0] != "paragraph"@[0]);
            },
            TextObject::Tag => {
                assert("tag"@[0] != "word"@[0]);
                assert("tag"@[0] != "big-word"@[0]);
                assert("tag"@[0] != "sentence"@[0]);
                assert("tag"@[0] != "paragraph"@[0]);
                assert("tag"@[0] != "delimited"@[0]);
            },
            TextObject::UnseenRegion => {
                assert("unseen-region"@[0] != "word"@[0]);
                assert("unseen-region"@[0] != "big-word"@[0]);
                assert("unseen-region"@[0] != "sentence"@[0]);
                assert("unseen-region"@[0] != "paragraph"@[0]);
                assert("unseen-region"@[0] != "delimited"@[0]);
                assert("unseen-region"@[0] != "tag"@[0]);
            },
            TextObject::Hunk => {
                assert("hunk"@[0] != "word"@[0]);
                assert("hunk"@[0] != "big-word"@[0]);
                assert("hunk"@[0] != "sentence"@[0]);
                assert("hunk"@[0] != "paragraph"@[0]);
                assert("hunk"@[0] != "delimited"@[0]);
                assert("hunk"@[0] != "tag"@[0]);
                assert("hunk"@[0] != "unseen-region"@[0]);
            },
            TextObject::Thread => {
                assert("thread"@[0] != "word"@[0]);
                assert("thread"@[0] != "big-word"@[0]);
                assert("thread"@[0] != "sentence"@[0]);
                assert("thread"@[0] != "paragraph"@[0]);
                assert("thread"@[0] != "delimited"@[0]);
                assert("thread"@[1] != "tag"@[1]);
                assert("thread"@[0] != "unseen-region"@[0]);
                assert("thread"@[0] != "hunk"@[0]);
            },
            TextObject::Block => {
                assert("block"@[0] != "word"@[0]);
                assert("block"@[1] != "big-word"@[1]);
                assert("block"@[0] != "sentence"@[0]);
                assert("block"@[0] != "paragraph"@[0]);
                assert("block"@[0] != "delimited"@[0]);
                assert("block"@[0] != "tag"@[0]);
                assert("block"@[0] != "unseen-region"@[0]);
                assert("block"@[0] != "hunk"@[0]);
                assert("block"@[0] != "thread"@[0]);
            },
        }
    }
}
/// The tags [`SelectionKind`] is spelled with.
pub open spec fn selectionkind_tags_v() -> Seq<Seq<char>> {
    seq!["char"@, "line"@, "block"@]
}

fn selectionkind_tags() -> (r: Vec<&'static str>)
    ensures
        names_view(r@) == selectionkind_tags_v(),
{
    let mut r: Vec<&'static str> = Vec::new();
    r.push("char");
    r.push("line");
    r.push("block");
    assert(names_view(r@) =~= selectionkind_tags_v());
    r
}

impl Wire for SelectionKind {
    open spec fn wire(&self) -> ValueV {
        ValueV::Text(match self {
            SelectionKind::Char => "char"@,
            SelectionKind::Line => "line"@,
            SelectionKind::Block => "block"@,
        })
    }

    open spec fn fits(&self) -> bool {
        true
    }

    open spec fn unwire(v: ValueV) -> Result<ValueV, WireErrorV> {
        match v {
            ValueV::Text(t) => if t == "char"@ {
                Ok(ValueV::Text("char"@))
            } else if t == "line"@ {
                Ok(ValueV::Text("line"@))
            } else if t == "block"@ {
                Ok(ValueV::Text("block"@))
            } else {
                Err(WireErrorV::Tag { got: t, expected: selectionkind_tags_v() })
            },
            _ => Err(shape("text"@)),
        }
    }

    open spec fn optional() -> bool {
        false
    }

    fn to_value(&self) -> (r: Value) {
        let s: &'static str = match self {
            SelectionKind::Char => "char",
            SelectionKind::Line => "line",
            SelectionKind::Block => "block",
        };
        let r = Value::Text(String::from_str(s));
        proof {
            lemma_value_view(r);
        }
        r
    }

    fn from_value(v: &Value) -> (r: Result<Self, WireError>) {
        proof {
            lemma_value_view(*v);
        }
        match v {
            Value::Text(t) => if str_eq(t.as_str(), "char") {
                    Ok(SelectionKind::Char)
                } else if str_eq(t.as_str(), "line") {
                    Ok(SelectionKind::Line)
                } else if str_eq(t.as_str(), "block") {
                    Ok(SelectionKind::Block)
                } else {
                    Err(WireError::Tag { got: t.clone(), expected: selectionkind_tags() })
                },
            _ => Err(WireError::Shape { expected: "text" }),
        }
    }

    fn is_optional() -> (r: bool) {
        false
    }

    proof fn lemma_wire_round_trip(x: Self) {
        reveal_strlit("block");
        reveal_strlit("char");
        reveal_strlit("line");
        match x {
            SelectionKind::Char => {
            },
            SelectionKind::Line => {
                assert("line"@[0] != "char"@[0]);
            },
            SelectionKind::Block => {
                assert("block"@[0] != "char"@[0]);
                assert("block"@[0] != "line"@[0]);
            },
        }
    }
}
/// The tags [`CaseChange`] is spelled with.
pub open spec fn casechange_tags_v() -> Seq<Seq<char>> {
    seq!["upper"@, "lower"@, "toggle"@]
}

fn casechange_tags() -> (r: Vec<&'static str>)
    ensures
        names_view(r@) == casechange_tags_v(),
{
    let mut r: Vec<&'static str> = Vec::new();
    r.push("upper");
    r.push("lower");
    r.push("toggle");
    assert(names_view(r@) =~= casechange_tags_v());
    r
}

impl Wire for CaseChange {
    open spec fn wire(&self) -> ValueV {
        ValueV::Text(match self {
            CaseChange::Upper => "upper"@,
            CaseChange::Lower => "lower"@,
            CaseChange::Toggle => "toggle"@,
        })
    }

    open spec fn fits(&self) -> bool {
        true
    }

    open spec fn unwire(v: ValueV) -> Result<ValueV, WireErrorV> {
        match v {
            ValueV::Text(t) => if t == "upper"@ {
                Ok(ValueV::Text("upper"@))
            } else if t == "lower"@ {
                Ok(ValueV::Text("lower"@))
            } else if t == "toggle"@ {
                Ok(ValueV::Text("toggle"@))
            } else {
                Err(WireErrorV::Tag { got: t, expected: casechange_tags_v() })
            },
            _ => Err(shape("text"@)),
        }
    }

    open spec fn optional() -> bool {
        false
    }

    fn to_value(&self) -> (r: Value) {
        let s: &'static str = match self {
            CaseChange::Upper => "upper",
            CaseChange::Lower => "lower",
            CaseChange::Toggle => "toggle",
        };
        let r = Value::Text(String::from_str(s));
        proof {
            lemma_value_view(r);
        }
        r
    }

    fn from_value(v: &Value) -> (r: Result<Self, WireError>) {
        proof {
            lemma_value_view(*v);
        }
        match v {
            Value::Text(t) => if str_eq(t.as_str(), "upper") {
                    Ok(CaseChange::Upper)
                } else if str_eq(t.as_str(), "lower") {
                    Ok(CaseChange::Lower)
                } else if str_eq(t.as_str(), "toggle") {
                    Ok(CaseChange::Toggle)
                } else {
                    Err(WireError::Tag { got: t.clone(), expected: casechange_tags() })
                },
            _ => Err(WireError::Shape { expected: "text" }),
        }
    }

    fn is_optional() -> (r: bool) {
        false
    }

    proof fn lemma_wire_round_trip(x: Self) {
        reveal_strlit("lower");
        reveal_strlit("toggle");
        reveal_strlit("upper");
        match x {
            CaseChange::Upper => {
            },
            CaseChange::Lower => {
                assert("lower"@[0] != "upper"@[0]);
            },
            CaseChange::Toggle => {
                assert("toggle"@[0] != "upper"@[0]);
                assert("toggle"@[0] != "lower"@[0]);
            },
        }
    }
}
/// The tags [`Severity`] is spelled with.
pub open spec fn severity_tags_v() -> Seq<Seq<char>> {
    seq!["info"@, "attention"@, "trouble"@]
}

fn severity_tags() -> (r: Vec<&'static str>)
    ensures
        names_view(r@) == severity_tags_v(),
{
    let mut r: Vec<&'static str> = Vec::new();
    r.push("info");
    r.push("attention");
    r.push("trouble");
    assert(names_view(r@) =~= severity_tags_v());
    r
}

impl Wire for Severity {
    open spec fn wire(&self) -> ValueV {
        ValueV::Text(match self {
            Severity::Info => "info"@,
            Severity::Attention => "attention"@,
            Severity::Trouble => "trouble"@,
        })
    }

    open spec fn fits(&self) -> bool {
        true
    }

    open spec fn unwire(v: ValueV) -> Result<ValueV, WireErrorV> {
        match v {
            ValueV::Text(t) => if t == "info"@ {
                Ok(ValueV::Text("info"@))
            } else if t == "attention"@ {
                Ok(ValueV::Text("attention"@))
            } else if t == "trouble"@ {
                Ok(ValueV::Text("trouble"@))
            } else {
                Err(WireErrorV::Tag { got: t, expected: severity_tags_v() })
            },
            _ => Err(shape("text"@)),
        }
    }

    open spec fn optional() -> bool {
        false
    }

    fn to_value(&self) -> (r: Value) {
        let s: &'static str = match self {
            Severity::Info => "info",
            Severity::Attention => "attention",
            Severity::Trouble => "trouble",
        };
        let r = Value::Text(String::from_str(s));
        proof {
            lemma_value_view(r);
        }
        r
    }

    fn from_value(v: &Value) -> (r: Result<Self, WireError>) {
        proof {
            lemma_value_view(*v);
        }
        match v {
            Value::Text(t) => if str_eq(t.as_str(), "info") {
                    Ok(Severity::Info)
                } else if str_eq(t.as_str(), "attention") {
                    Ok(Severity::Attention)
                } else if str_eq(t.as_str(), "trouble") {
                    Ok(Severity::Trouble)
                } else {
                    Err(WireError::Tag { got: t.clone(), expected: severity_tags() })
                },
            _ => Err(WireError::Shape { expected: "text" }),
        }
    }

    fn is_optional() -> (r: bool) {
        false
    }

    proof fn lemma_wire_round_trip(x: Self) {
        reveal_strlit("attention");
        reveal_strlit("info");
        reveal_strlit("trouble");
        match x {
            Severity::Info => {
            },
            Severity::Attention => {
                assert("attention"@[0] != "info"@[0]);
            },
            Severity::Trouble => {
                assert("trouble"@[0] != "info"@[0]);
                assert("trouble"@[0] != "attention"@[0]);
            },
        }
    }
}
/// The tags [`DiffMode`] is spelled with.
pub open spec fn diffmode_tags_v() -> Seq<Seq<char>> {
    seq!["unified"@, "side-by-side"@]
}

fn diffmode_tags() -> (r: Vec<&'static str>)
    ensures
        names_view(r@) == diffmode_tags_v(),
{
    let mut r: Vec<&'static str> = Vec::new();
    r.push("unified");
    r.push("side-by-side");
    assert(names_view(r@) =~= diffmode_tags_v());
    r
}

impl Wire for DiffMode {
    open spec fn wire(&self) -> ValueV {
        ValueV::Text(match self {
            DiffMode::Unified => "unified"@,
            DiffMode::SideBySide => "side-by-side"@,
        })
    }

    open spec fn fits(&self) -> bool {
        true
    }

    open spec fn unwire(v: ValueV) -> Result<ValueV, WireErrorV> {
        match v {
            ValueV::Text(t) => if t == "unified"@ {
                Ok(ValueV::Text("unified"@))
            } else if t == "side-by-side"@ {
                Ok(ValueV::Text("side-by-side"@))
            } else {
                Err(WireErrorV::Tag { got: t, expected: diffmode_tags_v() })
            },
            _ => Err(shape("text"@)),
        }
    }

    open spec fn optional() -> bool {
        false
    }

    fn to_value(&self) -> (r: Value) {
        let s: &'static str = match self {
            DiffMode::Unified => "unified",
            DiffMode::SideBySide => "side-by-side",
        };
        let r = Value::Text(String::from_str(s));
        proof {
            lemma_value_view(r);
        }
        r
    }

    fn from_value(v: &Value) -> (r: Result<Self, WireError>) {
        proof {
            lemma_value_view(*v);
        }
        match v {
            Value::Text(t) => if str_eq(t.as_str(), "unified") {
                    Ok(DiffMode::Unified)
                } else if str_eq(t.as_str(), "side-by-side") {
                    Ok(DiffMode::SideBySide)
                } else {
                    Err(WireError::Tag { got: t.clone(), expected: diffmode_tags() })
                },
            _ => Err(WireError::Shape { expected: "text" }),
        }
    }

    fn is_optional() -> (r: bool) {
        false
    }

    proof fn lemma_wire_round_trip(x: Self) {
        reveal_strlit("side-by-side");
        reveal_strlit("unified");
        match x {
            DiffMode::Unified => {
            },
            DiffMode::SideBySide => {
                assert("side-by-side"@[0] != "unified"@[0]);
            },
        }
    }
}
/// The tags [`Grouping`] is spelled with.
pub open spec fn grouping_tags_v() -> Seq<Seq<char>> {
    seq!["directory"@, "flat"@]
}

fn grouping_tags() -> (r: Vec<&'static str>)
    ensures
        names_view(r@) == grouping_tags_v(),
{
    let mut r: Vec<&'static str> = Vec::new();
    r.push("directory");
    r.push("flat");
    assert(names_view(r@) =~= grouping_tags_v());
    r
}

impl Wire for Grouping {
    open spec fn wire(&self) -> ValueV {
        ValueV::Text(match self {
            Grouping::Directory => "directory"@,
            Grouping::Flat => "flat"@,
        })
    }

    open spec fn fits(&self) -> bool {
        true
    }

    open spec fn unwire(v: ValueV) -> Result<ValueV, WireErrorV> {
        match v {
            ValueV::Text(t) => if t == "directory"@ {
                Ok(ValueV::Text("directory"@))
            } else if t == "flat"@ {
                Ok(ValueV::Text("flat"@))
            } else {
                Err(WireErrorV::Tag { got: t, expected: grouping_tags_v() })
            },
            _ => Err(shape("text"@)),
        }
    }

    open spec fn optional() -> bool {
        false
    }

    fn to_value(&self) -> (r: Value) {
        let s: &'static str = match self {
            Grouping::Directory => "directory",
            Grouping::Flat => "flat",
        };
        let r = Value::Text(String::from_str(s));
        proof {
            lemma_value_view(r);
        }
        r
    }

    fn from_value(v: &Value) -> (r: Result<Self, WireError>) {
        proof {
            lemma_value_view(*v);
        }
        match v {
            Value::Text(t) => if str_eq(t.as_str(), "directory") {
                    Ok(Grouping::Directory)
                } else if str_eq(t.as_str(), "flat") {
                    Ok(Grouping::Flat)
                } else {
                    Err(WireError::Tag { got: t.clone(), expected: grouping_tags() })
                },
            _ => Err(WireError::Shape { expected: "text" }),
        }
    }

    fn is_optional() -> (r: bool) {
        false
    }

    proof fn lemma_wire_round_trip(x: Self) {
        reveal_strlit("directory");
        reveal_strlit("flat");
        match x {
            Grouping::Directory => {
            },
            Grouping::Flat => {
                assert("flat"@[0] != "directory"@[0]);
            },
        }
    }
}
/// The tags [`FoldState`] is spelled with.
pub open spec fn foldstate_tags_v() -> Seq<Seq<char>> {
    seq!["folded"@, "unfolded"@, "toggle"@]
}

fn foldstate_tags() -> (r: Vec<&'static str>)
    ensures
        names_view(r@) == foldstate_tags_v(),
{
    let mut r: Vec<&'static str> = Vec::new();
    r.push("folded");
    r.push("unfolded");
    r.push("toggle");
    assert(names_view(r@) =~= foldstate_tags_v());
    r
}

impl Wire for FoldState {
    open spec fn wire(&self) -> ValueV {
        ValueV::Text(match self {
            FoldState::Folded => "folded"@,
            FoldState::Unfolded => "unfolded"@,
            FoldState::Toggle => "toggle"@,
        })
    }

    open spec fn fits(&self) -> bool {
        true
    }

    open spec fn unwire(v: ValueV) -> Result<ValueV, WireErrorV> {
        match v {
            ValueV::Text(t) => if t == "folded"@ {
                Ok(ValueV::Text("folded"@))
            } else if t == "unfolded"@ {
                Ok(ValueV::Text("unfolded"@))
            } else if t == "toggle"@ {
                Ok(ValueV::Text("toggle"@))
            } else {
                Err(WireErrorV::Tag { got: t, expected: foldstate_tags_v() })
            },
            _ => Err(shape("text"@)),
        }
    }

    open spec fn optional() -> bool {
        false
    }

    fn to_value(&self) -> (r: Value) {
        let s: &'static str = match self {
            FoldState::Folded => "folded",
            FoldState::Unfolded => "unfolded",
            FoldState::Toggle => "toggle",
        };
        let r = Value::Text(String::from_str(s));
        proof {
            lemma_value_view(r);
        }
        r
    }

    fn from_value(v: &Value) -> (r: Result<Self, WireError>) {
        proof {
            lemma_value_view(*v);
        }
        match v {
            Value::Text(t) => if str_eq(t.as_str(), "folded") {
                    Ok(FoldState::Folded)
                } else if str_eq(t.as_str(), "unfolded") {
                    Ok(FoldState::Unfolded)
                } else if str_eq(t.as_str(), "toggle") {
                    Ok(FoldState::Toggle)
                } else {
                    Err(WireError::Tag { got: t.clone(), expected: foldstate_tags() })
                },
            _ => Err(WireError::Shape { expected: "text" }),
        }
    }

    fn is_optional() -> (r: bool) {
        false
    }

    proof fn lemma_wire_round_trip(x: Self) {
        reveal_strlit("folded");
        reveal_strlit("toggle");
        reveal_strlit("unfolded");
        match x {
            FoldState::Folded => {
            },
            FoldState::Unfolded => {
                assert("unfolded"@[0] != "folded"@[0]);
            },
            FoldState::Toggle => {
                assert("toggle"@[0] != "folded"@[0]);
                assert("toggle"@[0] != "unfolded"@[0]);
            },
        }
    }
}
/// The tags [`GrantScope`] is spelled with.
pub open spec fn grantscope_tags_v() -> Seq<Seq<char>> {
    seq!["once"@, "always"@]
}

fn grantscope_tags() -> (r: Vec<&'static str>)
    ensures
        names_view(r@) == grantscope_tags_v(),
{
    let mut r: Vec<&'static str> = Vec::new();
    r.push("once");
    r.push("always");
    assert(names_view(r@) =~= grantscope_tags_v());
    r
}

impl Wire for GrantScope {
    open spec fn wire(&self) -> ValueV {
        ValueV::Text(match self {
            GrantScope::Once => "once"@,
            GrantScope::Always => "always"@,
        })
    }

    open spec fn fits(&self) -> bool {
        true
    }

    open spec fn unwire(v: ValueV) -> Result<ValueV, WireErrorV> {
        match v {
            ValueV::Text(t) => if t == "once"@ {
                Ok(ValueV::Text("once"@))
            } else if t == "always"@ {
                Ok(ValueV::Text("always"@))
            } else {
                Err(WireErrorV::Tag { got: t, expected: grantscope_tags_v() })
            },
            _ => Err(shape("text"@)),
        }
    }

    open spec fn optional() -> bool {
        false
    }

    fn to_value(&self) -> (r: Value) {
        let s: &'static str = match self {
            GrantScope::Once => "once",
            GrantScope::Always => "always",
        };
        let r = Value::Text(String::from_str(s));
        proof {
            lemma_value_view(r);
        }
        r
    }

    fn from_value(v: &Value) -> (r: Result<Self, WireError>) {
        proof {
            lemma_value_view(*v);
        }
        match v {
            Value::Text(t) => if str_eq(t.as_str(), "once") {
                    Ok(GrantScope::Once)
                } else if str_eq(t.as_str(), "always") {
                    Ok(GrantScope::Always)
                } else {
                    Err(WireError::Tag { got: t.clone(), expected: grantscope_tags() })
                },
            _ => Err(WireError::Shape { expected: "text" }),
        }
    }

    fn is_optional() -> (r: bool) {
        false
    }

    proof fn lemma_wire_round_trip(x: Self) {
        reveal_strlit("always");
        reveal_strlit("once");
        match x {
            GrantScope::Once => {
            },
            GrantScope::Always => {
                assert("always"@[0] != "once"@[0]);
            },
        }
    }
}
/// The tags [`AcceptHow`] is spelled with.
pub open spec fn accepthow_tags_v() -> Seq<Seq<char>> {
    seq!["open"@, "split"@, "quickfix"@]
}

fn accepthow_tags() -> (r: Vec<&'static str>)
    ensures
        names_view(r@) == accepthow_tags_v(),
{
    let mut r: Vec<&'static str> = Vec::new();
    r.push("open");
    r.push("split");
    r.push("quickfix");
    assert(names_view(r@) =~= accepthow_tags_v());
    r
}

impl Wire for AcceptHow {
    open spec fn wire(&self) -> ValueV {
        ValueV::Text(match self {
            AcceptHow::Open => "open"@,
            AcceptHow::Split => "split"@,
            AcceptHow::Quickfix => "quickfix"@,
        })
    }

    open spec fn fits(&self) -> bool {
        true
    }

    open spec fn unwire(v: ValueV) -> Result<ValueV, WireErrorV> {
        match v {
            ValueV::Text(t) => if t == "open"@ {
                Ok(ValueV::Text("open"@))
            } else if t == "split"@ {
                Ok(ValueV::Text("split"@))
            } else if t == "quickfix"@ {
                Ok(ValueV::Text("quickfix"@))
            } else {
                Err(WireErrorV::Tag { got: t, expected: accepthow_tags_v() })
            },
            _ => Err(shape("text"@)),
        }
    }

    open spec fn optional() -> bool {
        false
    }

    fn to_value(&self) -> (r: Value) {
        let s: &'static str = match self {
            AcceptHow::Open => "open",
            AcceptHow::Split => "split",
            AcceptHow::Quickfix => "quickfix",
        };
        let r = Value::Text(String::from_str(s));
        proof {
            lemma_value_view(r);
        }
        r
    }

    fn from_value(v: &Value) -> (r: Result<Self, WireError>) {
        proof {
            lemma_value_view(*v);
        }
        match v {
            Value::Text(t) => if str_eq(t.as_str(), "open") {
                    Ok(AcceptHow::Open)
                } else if str_eq(t.as_str(), "split") {
                    Ok(AcceptHow::Split)
                } else if str_eq(t.as_str(), "quickfix") {
                    Ok(AcceptHow::Quickfix)
                } else {
                    Err(WireError::Tag { got: t.clone(), expected: accepthow_tags() })
                },
            _ => Err(WireError::Shape { expected: "text" }),
        }
    }

    fn is_optional() -> (r: bool) {
        false
    }

    proof fn lemma_wire_round_trip(x: Self) {
        reveal_strlit("open");
        reveal_strlit("quickfix");
        reveal_strlit("split");
        match x {
            AcceptHow::Open => {
            },
            AcceptHow::Split => {
                assert("split"@[0] != "open"@[0]);
            },
            AcceptHow::Quickfix => {
                assert("quickfix"@[0] != "open"@[0]);
                assert("quickfix"@[0] != "split"@[0]);
            },
        }
    }
}
/// The tags [`SeamKind`] is spelled with.
pub open spec fn seamkind_tags_v() -> Seq<Seq<char>> {
    seq!["paused"@, "lost"@, "resumed"@]
}

fn seamkind_tags() -> (r: Vec<&'static str>)
    ensures
        names_view(r@) == seamkind_tags_v(),
{
    let mut r: Vec<&'static str> = Vec::new();
    r.push("paused");
    r.push("lost");
    r.push("resumed");
    assert(names_view(r@) =~= seamkind_tags_v());
    r
}

impl Wire for SeamKind {
    open spec fn wire(&self) -> ValueV {
        ValueV::Text(match self {
            SeamKind::Paused => "paused"@,
            SeamKind::Lost => "lost"@,
            SeamKind::Resumed => "resumed"@,
        })
    }

    open spec fn fits(&self) -> bool {
        true
    }

    open spec fn unwire(v: ValueV) -> Result<ValueV, WireErrorV> {
        match v {
            ValueV::Text(t) => if t == "paused"@ {
                Ok(ValueV::Text("paused"@))
            } else if t == "lost"@ {
                Ok(ValueV::Text("lost"@))
            } else if t == "resumed"@ {
                Ok(ValueV::Text("resumed"@))
            } else {
                Err(WireErrorV::Tag { got: t, expected: seamkind_tags_v() })
            },
            _ => Err(shape("text"@)),
        }
    }

    open spec fn optional() -> bool {
        false
    }

    fn to_value(&self) -> (r: Value) {
        let s: &'static str = match self {
            SeamKind::Paused => "paused",
            SeamKind::Lost => "lost",
            SeamKind::Resumed => "resumed",
        };
        let r = Value::Text(String::from_str(s));
        proof {
            lemma_value_view(r);
        }
        r
    }

    fn from_value(v: &Value) -> (r: Result<Self, WireError>) {
        proof {
            lemma_value_view(*v);
        }
        match v {
            Value::Text(t) => if str_eq(t.as_str(), "paused") {
                    Ok(SeamKind::Paused)
                } else if str_eq(t.as_str(), "lost") {
                    Ok(SeamKind::Lost)
                } else if str_eq(t.as_str(), "resumed") {
                    Ok(SeamKind::Resumed)
                } else {
                    Err(WireError::Tag { got: t.clone(), expected: seamkind_tags() })
                },
            _ => Err(WireError::Shape { expected: "text" }),
        }
    }

    fn is_optional() -> (r: bool) {
        false
    }

    proof fn lemma_wire_round_trip(x: Self) {
        reveal_strlit("lost");
        reveal_strlit("paused");
        reveal_strlit("resumed");
        match x {
            SeamKind::Paused => {
            },
            SeamKind::Lost => {
                assert("lost"@[0] != "paused"@[0]);
            },
            SeamKind::Resumed => {
                assert("resumed"@[0] != "paused"@[0]);
                assert("resumed"@[0] != "lost"@[0]);
            },
        }
    }
}
/// The tags [`DiskExit`] is spelled with.
pub open spec fn diskexit_tags_v() -> Seq<Seq<char>> {
    seq!["take-disk"@, "keep-mine"@, "ask-agent"@]
}

fn diskexit_tags() -> (r: Vec<&'static str>)
    ensures
        names_view(r@) == diskexit_tags_v(),
{
    let mut r: Vec<&'static str> = Vec::new();
    r.push("take-disk");
    r.push("keep-mine");
    r.push("ask-agent");
    assert(names_view(r@) =~= diskexit_tags_v());
    r
}

impl Wire for DiskExit {
    open spec fn wire(&self) -> ValueV {
        ValueV::Text(match self {
            DiskExit::TakeDisk => "take-disk"@,
            DiskExit::KeepMine => "keep-mine"@,
            DiskExit::AskClaude => "ask-agent"@,
        })
    }

    open spec fn fits(&self) -> bool {
        true
    }

    open spec fn unwire(v: ValueV) -> Result<ValueV, WireErrorV> {
        match v {
            ValueV::Text(t) => if t == "take-disk"@ {
                Ok(ValueV::Text("take-disk"@))
            } else if t == "keep-mine"@ {
                Ok(ValueV::Text("keep-mine"@))
            } else if t == "ask-agent"@ {
                Ok(ValueV::Text("ask-agent"@))
            } else {
                Err(WireErrorV::Tag { got: t, expected: diskexit_tags_v() })
            },
            _ => Err(shape("text"@)),
        }
    }

    open spec fn optional() -> bool {
        false
    }

    fn to_value(&self) -> (r: Value) {
        let s: &'static str = match self {
            DiskExit::TakeDisk => "take-disk",
            DiskExit::KeepMine => "keep-mine",
            DiskExit::AskClaude => "ask-agent",
        };
        let r = Value::Text(String::from_str(s));
        proof {
            lemma_value_view(r);
        }
        r
    }

    fn from_value(v: &Value) -> (r: Result<Self, WireError>) {
        proof {
            lemma_value_view(*v);
        }
        match v {
            Value::Text(t) => if str_eq(t.as_str(), "take-disk") {
                    Ok(DiskExit::TakeDisk)
                } else if str_eq(t.as_str(), "keep-mine") {
                    Ok(DiskExit::KeepMine)
                } else if str_eq(t.as_str(), "ask-agent") {
                    Ok(DiskExit::AskClaude)
                } else {
                    Err(WireError::Tag { got: t.clone(), expected: diskexit_tags() })
                },
            _ => Err(WireError::Shape { expected: "text" }),
        }
    }

    fn is_optional() -> (r: bool) {
        false
    }

    proof fn lemma_wire_round_trip(x: Self) {
        reveal_strlit("ask-agent");
        reveal_strlit("keep-mine");
        reveal_strlit("take-disk");
        match x {
            DiskExit::TakeDisk => {
            },
            DiskExit::KeepMine => {
                assert("keep-mine"@[0] != "take-disk"@[0]);
            },
            DiskExit::AskClaude => {
                assert("ask-agent"@[0] != "take-disk"@[0]);
                assert("ask-agent"@[0] != "keep-mine"@[0]);
            },
        }
    }
}
/// The tags [`PaneKind`] is spelled with.
pub open spec fn panekind_tags_v() -> Seq<Seq<char>> {
    seq!["buffer"@, "transcript"@, "custom"@]
}

fn panekind_tags() -> (r: Vec<&'static str>)
    ensures
        names_view(r@) == panekind_tags_v(),
{
    let mut r: Vec<&'static str> = Vec::new();
    r.push("buffer");
    r.push("transcript");
    r.push("custom");
    assert(names_view(r@) =~= panekind_tags_v());
    r
}

impl Wire for PaneKind {
    open spec fn wire(&self) -> ValueV {
        ValueV::Text(match self {
            PaneKind::Buffer => "buffer"@,
            PaneKind::Transcript => "transcript"@,
            PaneKind::Custom => "custom"@,
        })
    }

    open spec fn fits(&self) -> bool {
        true
    }

    open spec fn unwire(v: ValueV) -> Result<ValueV, WireErrorV> {
        match v {
            ValueV::Text(t) => if t == "buffer"@ {
                Ok(ValueV::Text("buffer"@))
            } else if t == "transcript"@ {
                Ok(ValueV::Text("transcript"@))
            } else if t == "custom"@ {
                Ok(ValueV::Text("custom"@))
            } else {
                Err(WireErrorV::Tag { got: t, expected: panekind_tags_v() })
            },
            _ => Err(shape("text"@)),
        }
    }

    open spec fn optional() -> bool {
        false
    }

    fn to_value(&self) -> (r: Value) {
        let s: &'static str = match self {
            PaneKind::Buffer => "buffer",
            PaneKind::Transcript => "transcript",
            PaneKind::Custom => "custom",
        };
        let r = Value::Text(String::from_str(s));
        proof {
            lemma_value_view(r);
        }
        r
    }

    fn from_value(v: &Value) -> (r: Result<Self, WireError>) {
        proof {
            lemma_value_view(*v);
        }
        match v {
            Value::Text(t) => if str_eq(t.as_str(), "buffer") {
                    Ok(PaneKind::Buffer)
                } else if str_eq(t.as_str(), "transcript") {
                    Ok(PaneKind::Transcript)
                } else if str_eq(t.as_str(), "custom") {
                    Ok(PaneKind::Custom)
                } else {
                    Err(WireError::Tag { got: t.clone(), expected: panekind_tags() })
                },
            _ => Err(WireError::Shape { expected: "text" }),
        }
    }

    fn is_optional() -> (r: bool) {
        false
    }

    proof fn lemma_wire_round_trip(x: Self) {
        reveal_strlit("buffer");
        reveal_strlit("custom");
        reveal_strlit("transcript");
        match x {
            PaneKind::Buffer => {
            },
            PaneKind::Transcript => {
                assert("transcript"@[0] != "buffer"@[0]);
            },
            PaneKind::Custom => {
                assert("custom"@[0] != "buffer"@[0]);
                assert("custom"@[0] != "transcript"@[0]);
            },
        }
    }
}
/// The tags [`Sequence`] is spelled with.
pub open spec fn sequence_tags_v() -> Seq<Seq<char>> {
    seq!["unseen-region"@, "hunk"@, "block-file"@, "diagnostic"@, "thread"@, "ask"@, "search-match"@, "jump"@]
}

fn sequence_tags() -> (r: Vec<&'static str>)
    ensures
        names_view(r@) == sequence_tags_v(),
{
    let mut r: Vec<&'static str> = Vec::new();
    r.push("unseen-region");
    r.push("hunk");
    r.push("block-file");
    r.push("diagnostic");
    r.push("thread");
    r.push("ask");
    r.push("search-match");
    r.push("jump");
    assert(names_view(r@) =~= sequence_tags_v());
    r
}

impl Wire for Sequence {
    open spec fn wire(&self) -> ValueV {
        ValueV::Text(match self {
            Sequence::UnseenRegion => "unseen-region"@,
            Sequence::Hunk => "hunk"@,
            Sequence::BlockFile => "block-file"@,
            Sequence::Diagnostic => "diagnostic"@,
            Sequence::Thread => "thread"@,
            Sequence::Ask => "ask"@,
            Sequence::SearchMatch => "search-match"@,
            Sequence::Jump => "jump"@,
        })
    }

    open spec fn fits(&self) -> bool {
        true
    }

    open spec fn unwire(v: ValueV) -> Result<ValueV, WireErrorV> {
        match v {
            ValueV::Text(t) => if t == "unseen-region"@ {
                Ok(ValueV::Text("unseen-region"@))
            } else if t == "hunk"@ {
                Ok(ValueV::Text("hunk"@))
            } else if t == "block-file"@ {
                Ok(ValueV::Text("block-file"@))
            } else if t == "diagnostic"@ {
                Ok(ValueV::Text("diagnostic"@))
            } else if t == "thread"@ {
                Ok(ValueV::Text("thread"@))
            } else if t == "ask"@ {
                Ok(ValueV::Text("ask"@))
            } else if t == "search-match"@ {
                Ok(ValueV::Text("search-match"@))
            } else if t == "jump"@ {
                Ok(ValueV::Text("jump"@))
            } else {
                Err(WireErrorV::Tag { got: t, expected: sequence_tags_v() })
            },
            _ => Err(shape("text"@)),
        }
    }

    open spec fn optional() -> bool {
        false
    }

    fn to_value(&self) -> (r: Value) {
        let s: &'static str = match self {
            Sequence::UnseenRegion => "unseen-region",
            Sequence::Hunk => "hunk",
            Sequence::BlockFile => "block-file",
            Sequence::Diagnostic => "diagnostic",
            Sequence::Thread => "thread",
            Sequence::Ask => "ask",
            Sequence::SearchMatch => "search-match",
            Sequence::Jump => "jump",
        };
        let r = Value::Text(String::from_str(s));
        proof {
            lemma_value_view(r);
        }
        r
    }

    fn from_value(v: &Value) -> (r: Result<Self, WireError>) {
        proof {
            lemma_value_view(*v);
        }
        match v {
            Value::Text(t) => if str_eq(t.as_str(), "unseen-region") {
                    Ok(Sequence::UnseenRegion)
                } else if str_eq(t.as_str(), "hunk") {
                    Ok(Sequence::Hunk)
                } else if str_eq(t.as_str(), "block-file") {
                    Ok(Sequence::BlockFile)
                } else if str_eq(t.as_str(), "diagnostic") {
                    Ok(Sequence::Diagnostic)
                } else if str_eq(t.as_str(), "thread") {
                    Ok(Sequence::Thread)
                } else if str_eq(t.as_str(), "ask") {
                    Ok(Sequence::Ask)
                } else if str_eq(t.as_str(), "search-match") {
                    Ok(Sequence::SearchMatch)
                } else if str_eq(t.as_str(), "jump") {
                    Ok(Sequence::Jump)
                } else {
                    Err(WireError::Tag { got: t.clone(), expected: sequence_tags() })
                },
            _ => Err(WireError::Shape { expected: "text" }),
        }
    }

    fn is_optional() -> (r: bool) {
        false
    }

    proof fn lemma_wire_round_trip(x: Self) {
        reveal_strlit("ask");
        reveal_strlit("block-file");
        reveal_strlit("diagnostic");
        reveal_strlit("hunk");
        reveal_strlit("jump");
        reveal_strlit("search-match");
        reveal_strlit("thread");
        reveal_strlit("unseen-region");
        match x {
            Sequence::UnseenRegion => {
            },
            Sequence::Hunk => {
                assert("hunk"@[0] != "unseen-region"@[0]);
            },
            Sequence::BlockFile => {
                assert("block-file"@[0] != "unseen-region"@[0]);
                assert("block-file"@[0] != "hunk"@[0]);
            },
            Sequence::Diagnostic => {
                assert("diagnostic"@[0] != "unseen-region"@[0]);
                assert("diagnostic"@[0] != "hunk"@[0]);
                assert("diagnostic"@[0] != "block-file"@[0]);
            },
            Sequence::Thread => {
                assert("thread"@[0] != "unseen-region"@[0]);
                assert("thread"@[0] != "hunk"@[0]);
                assert("thread"@[0] != "block-file"@[0]);
                assert("thread"@[0] != "diagnostic"@[0]);
            },
            Sequence::Ask => {
                assert("ask"@[0] != "unseen-region"@[0]);
                assert("ask"@[0] != "hunk"@[0]);
                assert("ask"@[0] != "block-file"@[0]);
                assert("ask"@[0] != "diagnostic"@[0]);
                assert("ask"@[0] != "thread"@[0]);
            },
            Sequence::SearchMatch => {
                assert("search-match"@[0] != "unseen-region"@[0]);
                assert("search-match"@[0] != "hunk"@[0]);
                assert("search-match"@[0] != "block-file"@[0]);
                assert("search-match"@[0] != "diagnostic"@[0]);
                assert("search-match"@[0] != "thread"@[0]);
                assert("search-match"@[0] != "ask"@[0]);
            },
            Sequence::Jump => {
                assert("jump"@[0] != "unseen-region"@[0]);
                assert("jump"@[0] != "hunk"@[0]);
                assert("jump"@[0] != "block-file"@[0]);
                assert("jump"@[0] != "diagnostic"@[0]);
                assert("jump"@[0] != "thread"@[0]);
                assert("jump"@[0] != "ask"@[0]);
                assert("jump"@[0] != "search-match"@[0]);
            },
        }
    }
}
/// The tags [`PromptKind`] is spelled with.
pub open spec fn promptkind_tags_v() -> Seq<Seq<char>> {
    seq!["ex"@, "agent"@, "search"@]
}

fn promptkind_tags() -> (r: Vec<&'static str>)
    ensures
        names_view(r@) == promptkind_tags_v(),
{
    let mut r: Vec<&'static str> = Vec::new();
    r.push("ex");
    r.push("agent");
    r.push("search");
    assert(names_view(r@) =~= promptkind_tags_v());
    r
}

impl Wire for PromptKind {
    open spec fn wire(&self) -> ValueV {
        ValueV::Text(match self {
            PromptKind::Ex => "ex"@,
            PromptKind::Claude => "agent"@,
            PromptKind::Search => "search"@,
        })
    }

    open spec fn fits(&self) -> bool {
        true
    }

    open spec fn unwire(v: ValueV) -> Result<ValueV, WireErrorV> {
        match v {
            ValueV::Text(t) => if t == "ex"@ {
                Ok(ValueV::Text("ex"@))
            } else if t == "agent"@ {
                Ok(ValueV::Text("agent"@))
            } else if t == "search"@ {
                Ok(ValueV::Text("search"@))
            } else {
                Err(WireErrorV::Tag { got: t, expected: promptkind_tags_v() })
            },
            _ => Err(shape("text"@)),
        }
    }

    open spec fn optional() -> bool {
        false
    }

    fn to_value(&self) -> (r: Value) {
        let s: &'static str = match self {
            PromptKind::Ex => "ex",
            PromptKind::Claude => "agent",
            PromptKind::Search => "search",
        };
        let r = Value::Text(String::from_str(s));
        proof {
            lemma_value_view(r);
        }
        r
    }

    fn from_value(v: &Value) -> (r: Result<Self, WireError>) {
        proof {
            lemma_value_view(*v);
        }
        match v {
            Value::Text(t) => if str_eq(t.as_str(), "ex") {
                    Ok(PromptKind::Ex)
                } else if str_eq(t.as_str(), "agent") {
                    Ok(PromptKind::Claude)
                } else if str_eq(t.as_str(), "search") {
                    Ok(PromptKind::Search)
                } else {
                    Err(WireError::Tag { got: t.clone(), expected: promptkind_tags() })
                },
            _ => Err(WireError::Shape { expected: "text" }),
        }
    }

    fn is_optional() -> (r: bool) {
        false
    }

    proof fn lemma_wire_round_trip(x: Self) {
        reveal_strlit("agent");
        reveal_strlit("ex");
        reveal_strlit("search");
        match x {
            PromptKind::Ex => {
            },
            PromptKind::Claude => {
                assert("agent"@[0] != "ex"@[0]);
            },
            PromptKind::Search => {
                assert("search"@[0] != "ex"@[0]);
                assert("search"@[0] != "agent"@[0]);
            },
        }
    }
}
/// The tags [`Tier`] is spelled with.
pub open spec fn tier_tags_v() -> Seq<Seq<char>> {
    seq!["first-class"@, "second-tier"@]
}

fn tier_tags() -> (r: Vec<&'static str>)
    ensures
        names_view(r@) == tier_tags_v(),
{
    let mut r: Vec<&'static str> = Vec::new();
    r.push("first-class");
    r.push("second-tier");
    assert(names_view(r@) =~= tier_tags_v());
    r
}

impl Wire for Tier {
    open spec fn wire(&self) -> ValueV {
        ValueV::Text(match self {
            Tier::FirstClass => "first-class"@,
            Tier::SecondTier => "second-tier"@,
        })
    }

    open spec fn fits(&self) -> bool {
        true
    }

    open spec fn unwire(v: ValueV) -> Result<ValueV, WireErrorV> {
        match v {
            ValueV::Text(t) => if t == "first-class"@ {
                Ok(ValueV::Text("first-class"@))
            } else if t == "second-tier"@ {
                Ok(ValueV::Text("second-tier"@))
            } else {
                Err(WireErrorV::Tag { got: t, expected: tier_tags_v() })
            },
            _ => Err(shape("text"@)),
        }
    }

    open spec fn optional() -> bool {
        false
    }

    fn to_value(&self) -> (r: Value) {
        let s: &'static str = match self {
            Tier::FirstClass => "first-class",
            Tier::SecondTier => "second-tier",
        };
        let r = Value::Text(String::from_str(s));
        proof {
            lemma_value_view(r);
        }
        r
    }

    fn from_value(v: &Value) -> (r: Result<Self, WireError>) {
        proof {
            lemma_value_view(*v);
        }
        match v {
            Value::Text(t) => if str_eq(t.as_str(), "first-class") {
                    Ok(Tier::FirstClass)
                } else if str_eq(t.as_str(), "second-tier") {
                    Ok(Tier::SecondTier)
                } else {
                    Err(WireError::Tag { got: t.clone(), expected: tier_tags() })
                },
            _ => Err(WireError::Shape { expected: "text" }),
        }
    }

    fn is_optional() -> (r: bool) {
        false
    }

    proof fn lemma_wire_round_trip(x: Self) {
        reveal_strlit("first-class");
        reveal_strlit("second-tier");
        match x {
            Tier::FirstClass => {
            },
            Tier::SecondTier => {
                assert("second-tier"@[0] != "first-class"@[0]);
            },
        }
    }
}
/// The tags [`Target`] is spelled with.
pub open spec fn target_tags_v() -> Seq<Seq<char>> {
    seq!["cursor"@, "selection"@, "picker-row"@, "float-row"@, "buffer"@, "file"@, "explicit"@, "region"@, "anchor"@, "hunk"@, "block"@, "group"@, "thread"@, "inbox-item"@, "watch"@]
}

fn target_tags() -> (r: Vec<&'static str>)
    ensures
        names_view(r@) == target_tags_v(),
{
    let mut r: Vec<&'static str> = Vec::new();
    r.push("cursor");
    r.push("selection");
    r.push("picker-row");
    r.push("float-row");
    r.push("buffer");
    r.push("file");
    r.push("explicit");
    r.push("region");
    r.push("anchor");
    r.push("hunk");
    r.push("block");
    r.push("group");
    r.push("thread");
    r.push("inbox-item");
    r.push("watch");
    assert(names_view(r@) =~= target_tags_v());
    r
}

impl Wire for Target {
    open spec fn wire(&self) -> ValueV {
        match self {
            Target::Cursor {} => record_of(seq![("kind"@, ValueV::Text("cursor"@))]),
            Target::Selection {} => record_of(seq![("kind"@, ValueV::Text("selection"@))]),
            Target::PickerRow {} => record_of(seq![("kind"@, ValueV::Text("picker-row"@))]),
            Target::FloatRow {} => record_of(seq![("kind"@, ValueV::Text("float-row"@))]),
            Target::Buffer { id } => record_of(seq![("kind"@, ValueV::Text("buffer"@)), ("id"@, id.wire())]),
            Target::File { path } => record_of(seq![("kind"@, ValueV::Text("file"@)), ("path"@, path.wire())]),
            Target::Explicit { path, span } => record_of(seq![("kind"@, ValueV::Text("explicit"@)), ("path"@, path.wire()), ("span"@, span.wire())]),
            Target::Region { id } => record_of(seq![("kind"@, ValueV::Text("region"@)), ("id"@, id.wire())]),
            Target::Anchor { id } => record_of(seq![("kind"@, ValueV::Text("anchor"@)), ("id"@, id.wire())]),
            Target::Hunk { id } => record_of(seq![("kind"@, ValueV::Text("hunk"@)), ("id"@, id.wire())]),
            Target::Block { id } => record_of(seq![("kind"@, ValueV::Text("block"@)), ("id"@, id.wire())]),
            Target::Group { id } => record_of(seq![("kind"@, ValueV::Text("group"@)), ("id"@, id.wire())]),
            Target::Thread { id } => record_of(seq![("kind"@, ValueV::Text("thread"@)), ("id"@, id.wire())]),
            Target::InboxItem { id } => record_of(seq![("kind"@, ValueV::Text("inbox-item"@)), ("id"@, id.wire())]),
            Target::Watch { id } => record_of(seq![("kind"@, ValueV::Text("watch"@)), ("id"@, id.wire())]),
        }
    }

    open spec fn fits(&self) -> bool {
        match self {
            Target::Cursor {} => true,
            Target::Selection {} => true,
            Target::PickerRow {} => true,
            Target::FloatRow {} => true,
            Target::Buffer { id } => id.fits(),
            Target::File { path } => path.fits(),
            Target::Explicit { path, span } => path.fits() && span.fits(),
            Target::Region { id } => id.fits(),
            Target::Anchor { id } => id.fits(),
            Target::Hunk { id } => id.fits(),
            Target::Block { id } => id.fits(),
            Target::Group { id } => id.fits(),
            Target::Thread { id } => id.fits(),
            Target::InboxItem { id } => id.fits(),
            Target::Watch { id } => id.fits(),
        }
    }

    open spec fn unwire(v: ValueV) -> Result<ValueV, WireErrorV> {
        match v {
            ValueV::Record(rec) => match crate::value::field_value(rec, "kind"@) {
                Some(ValueV::Text(t)) => {
                    if t == "cursor"@ {
                        Ok(record_of(seq![("kind"@, ValueV::Text("cursor"@))]))
                    } else if t == "selection"@ {
                        Ok(record_of(seq![("kind"@, ValueV::Text("selection"@))]))
                    } else if t == "picker-row"@ {
                        Ok(record_of(seq![("kind"@, ValueV::Text("picker-row"@))]))
                    } else if t == "float-row"@ {
                        Ok(record_of(seq![("kind"@, ValueV::Text("float-row"@))]))
                    } else if t == "buffer"@ {
                        match field_unwire::<BufferId>(rec, "id"@) {
                            Err(e) => Err(e),
                            Ok(w0) => Ok(record_of(seq![("kind"@, ValueV::Text("buffer"@)), ("id"@, w0)])),
                        }
                    } else if t == "file"@ {
                        match field_unwire::<String>(rec, "path"@) {
                            Err(e) => Err(e),
                            Ok(w0) => Ok(record_of(seq![("kind"@, ValueV::Text("file"@)), ("path"@, w0)])),
                        }
                    } else if t == "explicit"@ {
                        match field_unwire::<String>(rec, "path"@) {
                            Err(e) => Err(e),
                            Ok(w0) =>                             match field_unwire::<Span>(rec, "span"@) {
                                Err(e) => Err(e),
                                Ok(w1) => Ok(record_of(seq![("kind"@, ValueV::Text("explicit"@)), ("path"@, w0), ("span"@, w1)])),
                            },
                        }
                    } else if t == "region"@ {
                        match field_unwire::<RegionId>(rec, "id"@) {
                            Err(e) => Err(e),
                            Ok(w0) => Ok(record_of(seq![("kind"@, ValueV::Text("region"@)), ("id"@, w0)])),
                        }
                    } else if t == "anchor"@ {
                        match field_unwire::<AnchorId>(rec, "id"@) {
                            Err(e) => Err(e),
                            Ok(w0) => Ok(record_of(seq![("kind"@, ValueV::Text("anchor"@)), ("id"@, w0)])),
                        }
                    } else if t == "hunk"@ {
                        match field_unwire::<HunkId>(rec, "id"@) {
                            Err(e) => Err(e),
                            Ok(w0) => Ok(record_of(seq![("kind"@, ValueV::Text("hunk"@)), ("id"@, w0)])),
                        }
                    } else if t == "block"@ {
                        match field_unwire::<BlockId>(rec, "id"@) {
                            Err(e) => Err(e),
                            Ok(w0) => Ok(record_of(seq![("kind"@, ValueV::Text("block"@)), ("id"@, w0)])),
                        }
                    } else if t == "group"@ {
                        match field_unwire::<GroupId>(rec, "id"@) {
                            Err(e) => Err(e),
                            Ok(w0) => Ok(record_of(seq![("kind"@, ValueV::Text("group"@)), ("id"@, w0)])),
                        }
                    } else if t == "thread"@ {
                        match field_unwire::<ThreadId>(rec, "id"@) {
                            Err(e) => Err(e),
                            Ok(w0) => Ok(record_of(seq![("kind"@, ValueV::Text("thread"@)), ("id"@, w0)])),
                        }
                    } else if t == "inbox-item"@ {
                        match field_unwire::<InboxId>(rec, "id"@) {
                            Err(e) => Err(e),
                            Ok(w0) => Ok(record_of(seq![("kind"@, ValueV::Text("inbox-item"@)), ("id"@, w0)])),
                        }
                    } else if t == "watch"@ {
                        match field_unwire::<WatchId>(rec, "id"@) {
                            Err(e) => Err(e),
                            Ok(w0) => Ok(record_of(seq![("kind"@, ValueV::Text("watch"@)), ("id"@, w0)])),
                        }
                    } else {
                        Err(WireErrorV::Tag { got: t, expected: target_tags_v() })
                    }
                },
                Some(_) => Err(WireErrorV::Field { field: "kind"@, source: Box::new(shape("text"@)) }),
                None => Err(WireErrorV::Missing { field: "kind"@ }),
            },
            ValueV::Text(s) => match spec_target_from_text(s) {
                Some((path, span)) => Ok(record_of(seq![("kind"@, ValueV::Text("explicit"@)), ("path"@, ValueV::Text(path)), ("span"@, span.wire())])),
                None => Err(shape("tagged record"@)),
            },
            _ => Err(shape("tagged record"@)),
        }
    }

    open spec fn optional() -> bool {
        false
    }

    fn to_value(&self) -> (r: Value) {
        match self {
            Target::Cursor {} => {
                let kind = Value::Text(String::from_str("cursor"));
                proof {
                    lemma_value_view(kind);
                }
                let mut f: Vec<(&'static str, Value)> = Vec::new();
                f.push(("kind", kind));
                proof {
                    assert(crate::value::named_view(f@) =~= seq![("kind"@, ValueV::Text("cursor"@))]);
                }
                record_from(f)
            },
            Target::Selection {} => {
                let kind = Value::Text(String::from_str("selection"));
                proof {
                    lemma_value_view(kind);
                }
                let mut f: Vec<(&'static str, Value)> = Vec::new();
                f.push(("kind", kind));
                proof {
                    assert(crate::value::named_view(f@) =~= seq![("kind"@, ValueV::Text("selection"@))]);
                }
                record_from(f)
            },
            Target::PickerRow {} => {
                let kind = Value::Text(String::from_str("picker-row"));
                proof {
                    lemma_value_view(kind);
                }
                let mut f: Vec<(&'static str, Value)> = Vec::new();
                f.push(("kind", kind));
                proof {
                    assert(crate::value::named_view(f@) =~= seq![("kind"@, ValueV::Text("picker-row"@))]);
                }
                record_from(f)
            },
            Target::FloatRow {} => {
                let kind = Value::Text(String::from_str("float-row"));
                proof {
                    lemma_value_view(kind);
                }
                let mut f: Vec<(&'static str, Value)> = Vec::new();
                f.push(("kind", kind));
                proof {
                    assert(crate::value::named_view(f@) =~= seq![("kind"@, ValueV::Text("float-row"@))]);
                }
                record_from(f)
            },
            Target::Buffer { id } => {
                let kind = Value::Text(String::from_str("buffer"));
                proof {
                    lemma_value_view(kind);
                }
                let mut f: Vec<(&'static str, Value)> = Vec::new();
                f.push(("kind", kind));
                f.push(("id", id.to_value()));
                proof {
                    assert(crate::value::named_view(f@) =~= seq![("kind"@, ValueV::Text("buffer"@)), ("id"@, id.wire())]);
                }
                record_from(f)
            },
            Target::File { path } => {
                let kind = Value::Text(String::from_str("file"));
                proof {
                    lemma_value_view(kind);
                }
                let mut f: Vec<(&'static str, Value)> = Vec::new();
                f.push(("kind", kind));
                f.push(("path", path.to_value()));
                proof {
                    assert(crate::value::named_view(f@) =~= seq![("kind"@, ValueV::Text("file"@)), ("path"@, path.wire())]);
                }
                record_from(f)
            },
            Target::Explicit { path, span } => {
                let kind = Value::Text(String::from_str("explicit"));
                proof {
                    lemma_value_view(kind);
                }
                let mut f: Vec<(&'static str, Value)> = Vec::new();
                f.push(("kind", kind));
                f.push(("path", path.to_value()));
                f.push(("span", span.to_value()));
                proof {
                    assert(crate::value::named_view(f@) =~= seq![("kind"@, ValueV::Text("explicit"@)), ("path"@, path.wire()), ("span"@, span.wire())]);
                }
                record_from(f)
            },
            Target::Region { id } => {
                let kind = Value::Text(String::from_str("region"));
                proof {
                    lemma_value_view(kind);
                }
                let mut f: Vec<(&'static str, Value)> = Vec::new();
                f.push(("kind", kind));
                f.push(("id", id.to_value()));
                proof {
                    assert(crate::value::named_view(f@) =~= seq![("kind"@, ValueV::Text("region"@)), ("id"@, id.wire())]);
                }
                record_from(f)
            },
            Target::Anchor { id } => {
                let kind = Value::Text(String::from_str("anchor"));
                proof {
                    lemma_value_view(kind);
                }
                let mut f: Vec<(&'static str, Value)> = Vec::new();
                f.push(("kind", kind));
                f.push(("id", id.to_value()));
                proof {
                    assert(crate::value::named_view(f@) =~= seq![("kind"@, ValueV::Text("anchor"@)), ("id"@, id.wire())]);
                }
                record_from(f)
            },
            Target::Hunk { id } => {
                let kind = Value::Text(String::from_str("hunk"));
                proof {
                    lemma_value_view(kind);
                }
                let mut f: Vec<(&'static str, Value)> = Vec::new();
                f.push(("kind", kind));
                f.push(("id", id.to_value()));
                proof {
                    assert(crate::value::named_view(f@) =~= seq![("kind"@, ValueV::Text("hunk"@)), ("id"@, id.wire())]);
                }
                record_from(f)
            },
            Target::Block { id } => {
                let kind = Value::Text(String::from_str("block"));
                proof {
                    lemma_value_view(kind);
                }
                let mut f: Vec<(&'static str, Value)> = Vec::new();
                f.push(("kind", kind));
                f.push(("id", id.to_value()));
                proof {
                    assert(crate::value::named_view(f@) =~= seq![("kind"@, ValueV::Text("block"@)), ("id"@, id.wire())]);
                }
                record_from(f)
            },
            Target::Group { id } => {
                let kind = Value::Text(String::from_str("group"));
                proof {
                    lemma_value_view(kind);
                }
                let mut f: Vec<(&'static str, Value)> = Vec::new();
                f.push(("kind", kind));
                f.push(("id", id.to_value()));
                proof {
                    assert(crate::value::named_view(f@) =~= seq![("kind"@, ValueV::Text("group"@)), ("id"@, id.wire())]);
                }
                record_from(f)
            },
            Target::Thread { id } => {
                let kind = Value::Text(String::from_str("thread"));
                proof {
                    lemma_value_view(kind);
                }
                let mut f: Vec<(&'static str, Value)> = Vec::new();
                f.push(("kind", kind));
                f.push(("id", id.to_value()));
                proof {
                    assert(crate::value::named_view(f@) =~= seq![("kind"@, ValueV::Text("thread"@)), ("id"@, id.wire())]);
                }
                record_from(f)
            },
            Target::InboxItem { id } => {
                let kind = Value::Text(String::from_str("inbox-item"));
                proof {
                    lemma_value_view(kind);
                }
                let mut f: Vec<(&'static str, Value)> = Vec::new();
                f.push(("kind", kind));
                f.push(("id", id.to_value()));
                proof {
                    assert(crate::value::named_view(f@) =~= seq![("kind"@, ValueV::Text("inbox-item"@)), ("id"@, id.wire())]);
                }
                record_from(f)
            },
            Target::Watch { id } => {
                let kind = Value::Text(String::from_str("watch"));
                proof {
                    lemma_value_view(kind);
                }
                let mut f: Vec<(&'static str, Value)> = Vec::new();
                f.push(("kind", kind));
                f.push(("id", id.to_value()));
                proof {
                    assert(crate::value::named_view(f@) =~= seq![("kind"@, ValueV::Text("watch"@)), ("id"@, id.wire())]);
                }
                record_from(f)
            },
        }
    }

    fn from_value(v: &Value) -> (r: Result<Self, WireError>) {
        proof {
            lemma_value_view(*v);
        }
        match v {
            Value::Record(a) => {
                proof {
                    lemma_field_value_view(a@, "kind"@);
                }
                match a.get("kind") {
                    Some(Value::Text(kt)) => {
                        let k = kt.as_str();
                        proof {
                            lemma_value_view(Value::Text(*kt));
                        }
                        if str_eq(k, "cursor") {
                            Ok(Target::Cursor {})
                        } else if str_eq(k, "selection") {
                            Ok(Target::Selection {})
                        } else if str_eq(k, "picker-row") {
                            Ok(Target::PickerRow {})
                        } else if str_eq(k, "float-row") {
                            Ok(Target::FloatRow {})
                        } else if str_eq(k, "buffer") {
                            let id = match a.field::<BufferId>("id") {
                                Ok(x) => x,
                                Err(e) => return Err(e),
                            };
                            Ok(Target::Buffer { id })
                        } else if str_eq(k, "file") {
                            let path = match a.field::<String>("path") {
                                Ok(x) => x,
                                Err(e) => return Err(e),
                            };
                            Ok(Target::File { path })
                        } else if str_eq(k, "explicit") {
                            let path = match a.field::<String>("path") {
                                Ok(x) => x,
                                Err(e) => return Err(e),
                            };
                            let span = match a.field::<Span>("span") {
                                Ok(x) => x,
                                Err(e) => return Err(e),
                            };
                            Ok(Target::Explicit { path, span })
                        } else if str_eq(k, "region") {
                            let id = match a.field::<RegionId>("id") {
                                Ok(x) => x,
                                Err(e) => return Err(e),
                            };
                            Ok(Target::Region { id })
                        } else if str_eq(k, "anchor") {
                            let id = match a.field::<AnchorId>("id") {
                                Ok(x) => x,
                                Err(e) => return Err(e),
                            };
                            Ok(Target::Anchor { id })
                        } else if str_eq(k, "hunk") {
                            let id = match a.field::<HunkId>("id") {
                                Ok(x) => x,
                                Err(e) => return Err(e),
                            };
                            Ok(Target::Hunk { id })
                        } else if str_eq(k, "block") {
                            let id = match a.field::<BlockId>("id") {
                                Ok(x) => x,
                                Err(e) => return Err(e),
                            };
                            Ok(Target::Block { id })
                        } else if str_eq(k, "group") {
                            let id = match a.field::<GroupId>("id") {
                                Ok(x) => x,
                                Err(e) => return Err(e),
                            };
                            Ok(Target::Group { id })
                        } else if str_eq(k, "thread") {
                            let id = match a.field::<ThreadId>("id") {
                                Ok(x) => x,
                                Err(e) => return Err(e),
                            };
                            Ok(Target::Thread { id })
                        } else if str_eq(k, "inbox-item") {
                            let id = match a.field::<InboxId>("id") {
                                Ok(x) => x,
                                Err(e) => return Err(e),
                            };
                            Ok(Target::InboxItem { id })
                        } else if str_eq(k, "watch") {
                            let id = match a.field::<WatchId>("id") {
                                Ok(x) => x,
                                Err(e) => return Err(e),
                            };
                            Ok(Target::Watch { id })
                        } else {
                            Err(WireError::Tag { got: String::from_str(k), expected: target_tags() })
                        }
                    },
                    Some(other) => {
                        proof {
                            lemma_value_view(*other);
                        }
                        let inner = WireError::Shape { expected: "text" };
                        assert(error_view(inner) == shape("text"@));
                        Err(WireError::Field { field: "kind", source: Box::new(inner) })
                    },
                    None => Err(WireError::Missing { field: "kind" }),
                }
            },
            Value::Text(s) => match target_from_text(s.as_str()) {
                Some(x) => Ok(x),
                None => Err(WireError::Shape { expected: "tagged record" }),
            },
            _ => Err(WireError::Shape { expected: "tagged record" }),
        }
    }

    fn is_optional() -> (r: bool) {
        false
    }

    proof fn lemma_wire_round_trip(x: Self) {
        reveal_strlit("anchor");
        reveal_strlit("block");
        reveal_strlit("buffer");
        reveal_strlit("cursor");
        reveal_strlit("explicit");
        reveal_strlit("file");
        reveal_strlit("float-row");
        reveal_strlit("group");
        reveal_strlit("hunk");
        reveal_strlit("id");
        reveal_strlit("inbox-item");
        reveal_strlit("kind");
        reveal_strlit("path");
        reveal_strlit("picker-row");
        reveal_strlit("region");
        reveal_strlit("selection");
        reveal_strlit("span");
        reveal_strlit("thread");
        reveal_strlit("watch");
        match x {
            Target::Cursor {} => {
                let f = seq![("kind"@, ValueV::Text("cursor"@))];
                assert(names_distinct(f));
                lemma_distinct_fields(f);
                assert(f[0].0 == "kind"@);
            },
            Target::Selection {} => {
                assert("selection"@[0] != "cursor"@[0]);
                let f = seq![("kind"@, ValueV::Text("selection"@))];
                assert(names_distinct(f));
                lemma_distinct_fields(f);
                assert(f[0].0 == "kind"@);
            },
            Target::PickerRow {} => {
                assert("picker-row"@[0] != "cursor"@[0]);
                assert("picker-row"@[0] != "selection"@[0]);
                let f = seq![("kind"@, ValueV::Text("picker-row"@))];
                assert(names_distinct(f));
                lemma_distinct_fields(f);
                assert(f[0].0 == "kind"@);
            },
            Target::FloatRow {} => {
                assert("float-row"@[0] != "cursor"@[0]);
                assert("float-row"@[0] != "selection"@[0]);
                assert("float-row"@[0] != "picker-row"@[0]);
                let f = seq![("kind"@, ValueV::Text("float-row"@))];
                assert(names_distinct(f));
                lemma_distinct_fields(f);
                assert(f[0].0 == "kind"@);
            },
            Target::Buffer { id } => {
                assert("buffer"@[0] != "cursor"@[0]);
                assert("buffer"@[0] != "selection"@[0]);
                assert("buffer"@[0] != "picker-row"@[0]);
                assert("buffer"@[0] != "float-row"@[0]);
                let f = seq![("kind"@, ValueV::Text("buffer"@)), ("id"@, id.wire())];
                assert forall|i: int, j: int| 0 <= i < j < 2 implies f[i].0 != f[j].0 by {
                        if i == 0 && j == 1 {
                            assert("kind"@[0] != "id"@[0]);
                        }
                }
                assert(names_distinct(f));
                lemma_distinct_fields(f);
                assert(f[0].0 == "kind"@);
                assert(f[1].0 == "id"@);
                <BufferId as Wire>::lemma_wire_round_trip(id);
            },
            Target::File { path } => {
                assert("file"@[0] != "cursor"@[0]);
                assert("file"@[0] != "selection"@[0]);
                assert("file"@[0] != "picker-row"@[0]);
                assert("file"@[1] != "float-row"@[1]);
                assert("file"@[0] != "buffer"@[0]);
                let f = seq![("kind"@, ValueV::Text("file"@)), ("path"@, path.wire())];
                assert forall|i: int, j: int| 0 <= i < j < 2 implies f[i].0 != f[j].0 by {
                        if i == 0 && j == 1 {
                            assert("kind"@[0] != "path"@[0]);
                        }
                }
                assert(names_distinct(f));
                lemma_distinct_fields(f);
                assert(f[0].0 == "kind"@);
                assert(f[1].0 == "path"@);
                <String as Wire>::lemma_wire_round_trip(path);
            },
            Target::Explicit { path, span } => {
                assert("explicit"@[0] != "cursor"@[0]);
                assert("explicit"@[0] != "selection"@[0]);
                assert("explicit"@[0] != "picker-row"@[0]);
                assert("explicit"@[0] != "float-row"@[0]);
                assert("explicit"@[0] != "buffer"@[0]);
                assert("explicit"@[0] != "file"@[0]);
                let f = seq![("kind"@, ValueV::Text("explicit"@)), ("path"@, path.wire()), ("span"@, span.wire())];
                assert forall|i: int, j: int| 0 <= i < j < 3 implies f[i].0 != f[j].0 by {
                        if i == 0 && j == 1 {
                            assert("kind"@[0] != "path"@[0]);
                        } else if i == 0 && j == 2 {
                            assert("kind"@[0] != "span"@[0]);
                        } else if i == 1 && j == 2 {
                            assert("path"@[0] != "span"@[0]);
                        }
                }
                assert(names_distinct(f));
                lemma_distinct_fields(f);
                assert(f[0].0 == "kind"@);
                assert(f[1].0 == "path"@);
                <String as Wire>::lemma_wire_round_trip(path);
                assert(f[2].0 == "span"@);
                <Span as Wire>::lemma_wire_round_trip(span);
            },
            Target::Region { id } => {
                assert("region"@[0] != "cursor"@[0]);
                assert("region"@[0] != "selection"@[0]);
                assert("region"@[0] != "picker-row"@[0]);
                assert("region"@[0] != "float-row"@[0]);
                assert("region"@[0] != "buffer"@[0]);
                assert("region"@[0] != "file"@[0]);
                assert("region"@[0] != "explicit"@[0]);
                let f = seq![("kind"@, ValueV::Text("region"@)), ("id"@, id.wire())];
                assert forall|i: int, j: int| 0 <= i < j < 2 implies f[i].0 != f[j].0 by {
                        if i == 0 && j == 1 {
                            assert("kind"@[0] != "id"@[0]);
                        }
                }
                assert(names_distinct(f));
                lemma_distinct_fields(f);
                assert(f[0].0 == "kind"@);
                assert(f[1].0 == "id"@);
                <RegionId as Wire>::lemma_wire_round_trip(id);
            },
            Target::Anchor { id } => {
                assert("anchor"@[0] != "cursor"@[0]);
                assert("anchor"@[0] != "selection"@[0]);
                assert("anchor"@[0] != "picker-row"@[0]);
                assert("anchor"@[0] != "float-row"@[0]);
                assert("anchor"@[0] != "buffer"@[0]);
                assert("anchor"@[0] != "file"@[0]);
                assert("anchor"@[0] != "explicit"@[0]);
                assert("anchor"@[0] != "region"@[0]);
                let f = seq![("kind"@, ValueV::Text("anchor"@)), ("id"@, id.wire())];
                assert forall|i: int, j: int| 0 <= i < j < 2 implies f[i].0 != f[j].0 by {
                        if i == 0 && j == 1 {
                            assert("kind"@[0] != "id"@[0]);
                        }
                }
                assert(names_distinct(f));
                lemma_distinct_fields(f);
                assert(f[0].0 == "kind"@);
                assert(f[1].0 == "id"@);
                <AnchorId as Wire>::lemma_wire_round_trip(id);
            },
            Target::Hunk { id } => {
                assert("hunk"@[0] != "cursor"@[0]);
                assert("hunk"@[0] != "selection"@[0]);
                assert("hunk"@[0] != "picker-row"@[0]);
                assert("hunk"@[0] != "float-row"@[0]);
                assert("hunk"@[0] != "buffer"@[0]);
                assert("hunk"@[0] != "file"@[0]);
                assert("hunk"@[0] != "explicit"@[0]);
                assert("hunk"@[0] != "region"@[0]);
                assert("hunk"@[0] != "anchor"@[0]);
                let f = seq![("kind"@, ValueV::Text("hunk"@)), ("id"@, id.wire())];
                assert forall|i: int, j: int| 0 <= i < j < 2 implies f[i].0 != f[j].0 by {
                        if i == 0 && j == 1 {
                            assert("kind"@[0] != "id"@[0]);
                        }
                }
                assert(names_distinct(f));
                lemma_distinct_fields(f);
                assert(f[0].0 == "kind"@);
                assert(f[1].0 == "id"@);
                <HunkId as Wire>::lemma_wire_round_trip(id);
            },
            Target::Block { id } => {
                assert("block"@[0] != "cursor"@[0]);
                assert("block"@[0] != "selection"@[0]);
                assert("block"@[0] != "picker-row"@[0]);
                assert("block"@[0] != "float-row"@[0]);
                assert("block"@[1] != "buffer"@[1]);
                assert("block"@[0] != "file"@[0]);
                assert("block"@[0] != "explicit"@[0]);
                assert("block"@[0] != "region"@[0]);
                assert("block"@[0] != "anchor"@[0]);
                assert("block"@[0] != "hunk"@[0]);
                let f = seq![("kind"@, ValueV::Text("block"@)), ("id"@, id.wire())];
                assert forall|i: int, j: int| 0 <= i < j < 2 implies f[i].0 != f[j].0 by {
                        if i == 0 && j == 1 {
                            assert("kind"@[0] != "id"@[0]);
                        }
                }
                assert(names_distinct(f));
                lemma_distinct_fields(f);
                assert(f[0].0 == "kind"@);
                assert(f[1].0 == "id"@);
                <BlockId as Wire>::lemma_wire_round_trip(id);
            },
            Target::Group { id } => {
                assert("group"@[0] != "cursor"@[0]);
                assert("group"@[0] != "selection"@[0]);
                assert("group"@[0] != "picker-row"@[0]);
                assert("group"@[0] != "float-row"@[0]);
                assert("group"@[0] != "buffer"@[0]);
                assert("group"@[0] != "file"@[0]);
                assert("group"@[0] != "explicit"@[0]);
                assert("group"@[0] != "region"@[0]);
                assert("group"@[0] != "anchor"@[0]);
                assert("group"@[0] != "hunk"@[0]);
                assert("group"@[0] != "block"@[0]);
                let f = seq![("kind"@, ValueV::Text("group"@)), ("id"@, id.wire())];
                assert forall|i: int, j: int| 0 <= i < j < 2 implies f[i].0 != f[j].0 by {
                        if i == 0 && j == 1 {
                            assert("kind"@[0] != "id"@[0]);
                        }
                }
                assert(names_distinct(f));
                lemma_distinct_fields(f);
                assert(f[0].0 == "kind"@);
                assert(f[1].0 == "id"@);
                <GroupId as Wire>::lemma_wire_round_trip(id);
            },
            Target::Thread { id } => {
                assert("thread"@[0] != "cursor"@[0]);
                assert("thread"@[0] != "selection"@[0]);
                assert("thread"@[0] != "picker-row"@[0]);
                assert("thread"@[0] != "float-row"@[0]);
                assert("thread"@[0] != "buffer"@[0]);
                assert("thread"@[0] != "file"@[0]);
                assert("thread"@[0] != "explicit"@[0]);
                assert("thread"@[0] != "region"@[0]);
                assert("thread"@[0] != "anchor"@[0]);
                assert("thread"@[0] != "hunk"@[0]);
                assert("thread"@[0] != "block"@[0]);
                assert("thread"@[0] != "group"@[0]);
                let f = seq![("kind"@, ValueV::Text("thread"@)), ("id"@, id.wire())];
                assert forall|i: int, j: int| 0 <= i < j < 2 implies f[i].0 != f[j].0 by {
                        if i == 0 && j == 1 {
                            assert("kind"@[0] != "id"@[0]);
                        }
                }
                assert(names_distinct(f));
                lemma_distinct_fields(f);
                assert(f[0].0 == "kind"@);
                assert(f[1].0 == "id"@);
                <ThreadId as Wire>::lemma_wire_round_trip(id);
            },
            Target::InboxItem { id } => {
                assert("inbox-item"@[0] != "cursor"@[0]);
                assert("inbox-item"@[0] != "selection"@[0]);
                assert("inbox-item"@[0] != "picker-row"@[0]);
                assert("inbox-item"@[0] != "float-row"@[0]);
                assert("inbox-item"@[0] != "buffer"@[0]);
                assert("inbox-item"@[0] != "file"@[0]);
                assert("inbox-item"@[0] != "explicit"@[0]);
                assert("inbox-item"@[0] != "region"@[0]);
                assert("inbox-item"@[0] != "anchor"@[0]);
                assert("inbox-item"@[0] != "hunk"@[0]);
                assert("inbox-item"@[0] != "block"@[0]);
                assert("inbox-item"@[0] != "group"@[0]);
                assert("inbox-item"@[0] != "thread"@[0]);
                let f = seq![("kind"@, ValueV::Text("inbox-item"@)), ("id"@, id.wire())];
                assert forall|i: int, j: int| 0 <= i < j < 2 implies f[i].0 != f[j].0 by {
                        if i == 0 && j == 1 {
                            assert("kind"@[0] != "id"@[0]);
                        }
                }
                assert(names_distinct(f));
                lemma_distinct_fields(f);
                assert(f[0].0 == "kind"@);
                assert(f[1].0 == "id"@);
                <InboxId as Wire>::lemma_wire_round_trip(id);
            },
            Target::Watch { id } => {
                assert("watch"@[0] != "cursor"@[0]);
                assert("watch"@[0] != "selection"@[0]);
                assert("watch"@[0] != "picker-row"@[0]);
                assert("watch"@[0] != "float-row"@[0]);
                assert("watch"@[0] != "buffer"@[0]);
                assert("watch"@[0] != "file"@[0]);
                assert("watch"@[0] != "explicit"@[0]);
                assert("watch"@[0] != "region"@[0]);
                assert("watch"@[0] != "anchor"@[0]);
                assert("watch"@[0] != "hunk"@[0]);
                assert("watch"@[0] != "block"@[0]);
                assert("watch"@[0] != "group"@[0]);
                assert("watch"@[0] != "thread"@[0]);
                assert("watch"@[0] != "inbox-item"@[0]);
                let f = seq![("kind"@, ValueV::Text("watch"@)), ("id"@, id.wire())];
                assert forall|i: int, j: int| 0 <= i < j < 2 implies f[i].0 != f[j].0 by {
                        if i == 0 && j == 1 {
                            assert("kind"@[0] != "id"@[0]);
                        }
                }
                assert(names_distinct(f));
                lemma_distinct_fields(f);
                assert(f[0].0 == "kind"@);
                assert(f[1].0 == "id"@);
                <WatchId as Wire>::lemma_wire_round_trip(id);
            },
        }
    }
}
/// The tags [`PaneRef`] is spelled with.
pub open spec fn paneref_tags_v() -> Seq<Seq<char>> {
    seq!["focused"@, "id"@, "direction"@, "next"@, "prev"@]
}

fn paneref_tags() -> (r: Vec<&'static str>)
    ensures
        names_view(r@) == paneref_tags_v(),
{
    let mut r: Vec<&'static str> = Vec::new();
    r.push("focused");
    r.push("id");
    r.push("direction");
    r.push("next");
    r.push("prev");
    assert(names_view(r@) =~= paneref_tags_v());
    r
}

impl Wire for PaneRef {
    open spec fn wire(&self) -> ValueV {
        match self {
            PaneRef::Focused {} => record_of(seq![("kind"@, ValueV::Text("focused"@))]),
            PaneRef::Id { id } => record_of(seq![("kind"@, ValueV::Text("id"@)), ("id"@, id.wire())]),
            PaneRef::Direction { direction } => record_of(seq![("kind"@, ValueV::Text("direction"@)), ("direction"@, direction.wire())]),
            PaneRef::Next {} => record_of(seq![("kind"@, ValueV::Text("next"@))]),
            PaneRef::Prev {} => record_of(seq![("kind"@, ValueV::Text("prev"@))]),
        }
    }

    open spec fn fits(&self) -> bool {
        match self {
            PaneRef::Focused {} => true,
            PaneRef::Id { id } => id.fits(),
            PaneRef::Direction { direction } => direction.fits(),
            PaneRef::Next {} => true,
            PaneRef::Prev {} => true,
        }
    }

    open spec fn unwire(v: ValueV) -> Result<ValueV, WireErrorV> {
        match v {
            ValueV::Record(rec) => match crate::value::field_value(rec, "kind"@) {
                Some(ValueV::Text(t)) => {
                    if t == "focused"@ {
                        Ok(record_of(seq![("kind"@, ValueV::Text("focused"@))]))
                    } else if t == "id"@ {
                        match field_unwire::<PaneId>(rec, "id"@) {
                            Err(e) => Err(e),
                            Ok(w0) => Ok(record_of(seq![("kind"@, ValueV::Text("id"@)), ("id"@, w0)])),
                        }
                    } else if t == "direction"@ {
                        match field_unwire::<Direction>(rec, "direction"@) {
                            Err(e) => Err(e),
                            Ok(w0) => Ok(record_of(seq![("kind"@, ValueV::Text("direction"@)), ("direction"@, w0)])),
                        }
                    } else if t == "next"@ {
                        Ok(record_of(seq![("kind"@, ValueV::Text("next"@))]))
                    } else if t == "prev"@ {
                        Ok(record_of(seq![("kind"@, ValueV::Text("prev"@))]))
                    } else {
                        Err(WireErrorV::Tag { got: t, expected: paneref_tags_v() })
                    }
                },
                Some(_) => Err(WireErrorV::Field { field: "kind"@, source: Box::new(shape("text"@)) }),
                None => Err(WireErrorV::Missing { field: "kind"@ }),
            },
            _ => Err(shape("tagged record"@)),
        }
    }

    open spec fn optional() -> bool {
        false
    }

    fn to_value(&self) -> (r: Value) {
        match self {
            PaneRef::Focused {} => {
                let kind = Value::Text(String::from_str("focused"));
                proof {
                    lemma_value_view(kind);
                }
                let mut f: Vec<(&'static str, Value)> = Vec::new();
                f.push(("kind", kind));
                proof {
                    assert(crate::value::named_view(f@) =~= seq![("kind"@, ValueV::Text("focused"@))]);
                }
                record_from(f)
            },
            PaneRef::Id { id } => {
                let kind = Value::Text(String::from_str("id"));
                proof {
                    lemma_value_view(kind);
                }
                let mut f: Vec<(&'static str, Value)> = Vec::new();
                f.push(("kind", kind));
                f.push(("id", id.to_value()));
                proof {
                    assert(crate::value::named_view(f@) =~= seq![("kind"@, ValueV::Text("id"@)), ("id"@, id.wire())]);
                }
                record_from(f)
            },
            PaneRef::Direction { direction } => {
                let kind = Value::Text(String::from_str("direction"));
                proof {
                    lemma_value_view(kind);
                }
                let mut f: Vec<(&'static str, Value)> = Vec::new();
                f.push(("kind", kind));
                f.push(("direction", direction.to_value()));
                proof {
                    assert(crate::value::named_view(f@) =~= seq![("kind"@, ValueV::Text("direction"@)), ("direction"@, direction.wire())]);
                }
                record_from(f)
            },
            PaneRef::Next {} => {
                let kind = Value::Text(String::from_str("next"));
                proof {
                    lemma_value_view(kind);
                }
                let mut f: Vec<(&'static str, Value)> = Vec::new();
                f.push(("kind", kind));
                proof {
                    assert(crate::value::named_view(f@) =~= seq![("kind"@, ValueV::Text("next"@))]);
                }
                record_from(f)
            },
            PaneRef::Prev {} => {
                let kind = Value::Text(String::from_str("prev"));
                proof {
                    lemma_value_view(kind);
                }
                let mut f: Vec<(&'static str, Value)> = Vec::new();
                f.push(("kind", kind));
                proof {
                    assert(crate::value::named_view(f@) =~= seq![("kind"@, ValueV::Text("prev"@))]);
                }
                record_from(f)
            },
        }
    }

    fn from_value(v: &Value) -> (r: Result<Self, WireError>) {
        proof {
            lemma_value_view(*v);
        }
        match v {
            Value::Record(a) => {
                proof {
                    lemma_field_value_view(a@, "kind"@);
                }
                match a.get("kind") {
                    Some(Value::Text(kt)) => {
                        let k = kt.as_str();
                        proof {
                            lemma_value_view(Value::Text(*kt));
                        }
                        if str_eq(k, "focused") {
                            Ok(PaneRef::Focused {})
                        } else if str_eq(k, "id") {
                            let id = match a.field::<PaneId>("id") {
                                Ok(x) => x,
                                Err(e) => return Err(e),
                            };
                            Ok(PaneRef::Id { id })
                        } else if str_eq(k, "direction") {
                            let direction = match a.field::<Direction>("direction") {
                                Ok(x) => x,
                                Err(e) => return Err(e),
                            };
                            Ok(PaneRef::Direction { direction })
                        } else if str_eq(k, "next") {
                            Ok(PaneRef::Next {})
                        } else if str_eq(k, "prev") {
                            Ok(PaneRef::Prev {})
                        } else {
                            Err(WireError::Tag { got: String::from_str(k), expected: paneref_tags() })
                        }
                    },
                    Some(other) => {
                        proof {
                            lemma_value_view(*other);
                        }
                        let inner = WireError::Shape { expected: "text" };
                        assert(error_view(inner) == shape("text"@));
                        Err(WireError::Field { field: "kind", source: Box::new(inner) })
                    },
                    None => Err(WireError::Missing { field: "kind" }),
                }
            },
            _ => Err(WireError::Shape { expected: "tagged record" }),
        }
    }

    fn is_optional() -> (r: bool) {
        false
    }

    proof fn lemma_wire_round_trip(x: Self) {
        reveal_strlit("direction");
        reveal_strlit("focused");
        reveal_strlit("id");
        reveal_strlit("kind");
        reveal_strlit("next");
        reveal_strlit("prev");
        match x {
            PaneRef::Focused {} => {
                let f = seq![("kind"@, ValueV::Text("focused"@))];
                assert(names_distinct(f));
                lemma_distinct_fields(f);
                assert(f[0].0 == "kind"@);
            },
            PaneRef::Id { id } => {
                assert("id"@[0] != "focused"@[0]);
                let f = seq![("kind"@, ValueV::Text("id"@)), ("id"@, id.wire())];
                assert forall|i: int, j: int| 0 <= i < j < 2 implies f[i].0 != f[j].0 by {
                        if i == 0 && j == 1 {
                            assert("kind"@[0] != "id"@[0]);
                        }
                }
                assert(names_distinct(f));
                lemma_distinct_fields(f);
                assert(f[0].0 == "kind"@);
                assert(f[1].0 == "id"@);
                <PaneId as Wire>::lemma_wire_round_trip(id);
            },
            PaneRef::Direction { direction } => {
                assert("direction"@[0] != "focused"@[0]);
                assert("direction"@[0] != "id"@[0]);
                let f = seq![("kind"@, ValueV::Text("direction"@)), ("direction"@, direction.wire())];
                assert forall|i: int, j: int| 0 <= i < j < 2 implies f[i].0 != f[j].0 by {
                        if i == 0 && j == 1 {
                            assert("kind"@[0] != "direction"@[0]);
                        }
                }
                assert(names_distinct(f));
                lemma_distinct_fields(f);
                assert(f[0].0 == "kind"@);
                assert(f[1].0 == "direction"@);
                <Direction as Wire>::lemma_wire_round_trip(direction);
            },
            PaneRef::Next {} => {
                assert("next"@[0] != "focused"@[0]);
                assert("next"@[0] != "id"@[0]);
                assert("next"@[0] != "direction"@[0]);
                let f = seq![("kind"@, ValueV::Text("next"@))];
                assert(names_distinct(f));
                lemma_distinct_fields(f);
                assert(f[0].0 == "kind"@);
            },
            PaneRef::Prev {} => {
                assert("prev"@[0] != "focused"@[0]);
                assert("prev"@[0] != "id"@[0]);
                assert("prev"@[0] != "direction"@[0]);
                assert("prev"@[0] != "next"@[0]);
                let f = seq![("kind"@, ValueV::Text("prev"@))];
                assert(names_distinct(f));
                lemma_distinct_fields(f);
                assert(f[0].0 == "kind"@);
            },
        }
    }
}
/// The tags [`ScrollRequest`] is spelled with.
pub open spec fn scrollrequest_tags_v() -> Seq<Seq<char>> {
    seq!["rows"@, "pages"@, "columns"@, "to-row"@, "to-top"@, "to-bottom"@, "reveal-row"@]
}

fn scrollrequest_tags() -> (r: Vec<&'static str>)
    ensures
        names_view(r@) == scrollrequest_tags_v(),
{
    let mut r: Vec<&'static str> = Vec::new();
    r.push("rows");
    r.push("pages");
    r.push("columns");
    r.push("to-row");
    r.push("to-top");
    r.push("to-bottom");
    r.push("reveal-row");
    assert(names_view(r@) =~= scrollrequest_tags_v());
    r
}

impl Wire for ScrollRequest {
    open spec fn wire(&self) -> ValueV {
        match self {
            ScrollRequest::Rows { rows } => record_of(seq![("kind"@, ValueV::Text("rows"@)), ("rows"@, rows.wire())]),
            ScrollRequest::Pages { pages } => record_of(seq![("kind"@, ValueV::Text("pages"@)), ("pages"@, pages.wire())]),
            ScrollRequest::Columns { columns } => record_of(seq![("kind"@, ValueV::Text("columns"@)), ("columns"@, columns.wire())]),
            ScrollRequest::ToRow { row } => record_of(seq![("kind"@, ValueV::Text("to-row"@)), ("row"@, row.wire())]),
            ScrollRequest::ToTop {} => record_of(seq![("kind"@, ValueV::Text("to-top"@))]),
            ScrollRequest::ToBottom {} => record_of(seq![("kind"@, ValueV::Text("to-bottom"@))]),
            ScrollRequest::RevealRow { row, margin } => record_of(seq![("kind"@, ValueV::Text("reveal-row"@)), ("row"@, row.wire()), ("margin"@, margin.wire())]),
        }
    }

    open spec fn fits(&self) -> bool {
        match self {
            ScrollRequest::Rows { rows } => rows.fits(),
            ScrollRequest::Pages { pages } => pages.fits(),
            ScrollRequest::Columns { columns } => columns.fits(),
            ScrollRequest::ToRow { row } => row.fits(),
            ScrollRequest::ToTop {} => true,
            ScrollRequest::ToBottom {} => true,
            ScrollRequest::RevealRow { row, margin } => row.fits() && margin.fits(),
        }
    }

    open spec fn unwire(v: ValueV) -> Result<ValueV, WireErrorV> {
        match v {
            ValueV::Record(rec) => match crate::value::field_value(rec, "kind"@) {
                Some(ValueV::Text(t)) => {
                    if t == "rows"@ {
                        match field_unwire::<i64>(rec, "rows"@) {
                            Err(e) => Err(e),
                            Ok(w0) => Ok(record_of(seq![("kind"@, ValueV::Text("rows"@)), ("rows"@, w0)])),
                        }
                    } else if t == "pages"@ {
                        match field_unwire::<i64>(rec, "pages"@) {
                            Err(e) => Err(e),
                            Ok(w0) => Ok(record_of(seq![("kind"@, ValueV::Text("pages"@)), ("pages"@, w0)])),
                        }
                    } else if t == "columns"@ {
                        match field_unwire::<i64>(rec, "columns"@) {
                            Err(e) => Err(e),
                            Ok(w0) => Ok(record_of(seq![("kind"@, ValueV::Text("columns"@)), ("columns"@, w0)])),
                        }
                    } else if t == "to-row"@ {
                        match field_unwire::<u32>(rec, "row"@) {
                            Err(e) => Err(e),
                            Ok(w0) => Ok(record_of(seq![("kind"@, ValueV::Text("to-row"@)), ("row"@, w0)])),
                        }
                    } else if t == "to-top"@ {
                        Ok(record_of(seq![("kind"@, ValueV::Text("to-top"@))]))
                    } else if t == "to-bottom"@ {
                        Ok(record_of(seq![("kind"@, ValueV::Text("to-bottom"@))]))
                    } else if t == "reveal-row"@ {
                        match field_unwire::<u32>(rec, "row"@) {
                            Err(e) => Err(e),
                            Ok(w0) =>                             match field_unwire::<u32>(rec, "margin"@) {
                                Err(e) => Err(e),
                                Ok(w1) => Ok(record_of(seq![("kind"@, ValueV::Text("reveal-row"@)), ("row"@, w0), ("margin"@, w1)])),
                            },
                        }
                    } else {
                        Err(WireErrorV::Tag { got: t, expected: scrollrequest_tags_v() })
                    }
                },
                Some(_) => Err(WireErrorV::Field { field: "kind"@, source: Box::new(shape("text"@)) }),
                None => Err(WireErrorV::Missing { field: "kind"@ }),
            },
            _ => Err(shape("tagged record"@)),
        }
    }

    open spec fn optional() -> bool {
        false
    }

    fn to_value(&self) -> (r: Value) {
        match self {
            ScrollRequest::Rows { rows } => {
                let kind = Value::Text(String::from_str("rows"));
                proof {
                    lemma_value_view(kind);
                }
                let mut f: Vec<(&'static str, Value)> = Vec::new();
                f.push(("kind", kind));
                f.push(("rows", rows.to_value()));
                proof {
                    assert(crate::value::named_view(f@) =~= seq![("kind"@, ValueV::Text("rows"@)), ("rows"@, rows.wire())]);
                }
                record_from(f)
            },
            ScrollRequest::Pages { pages } => {
                let kind = Value::Text(String::from_str("pages"));
                proof {
                    lemma_value_view(kind);
                }
                let mut f: Vec<(&'static str, Value)> = Vec::new();
                f.push(("kind", kind));
                f.push(("pages", pages.to_value()));
                proof {
                    assert(crate::value::named_view(f@) =~= seq![("kind"@, ValueV::Text("pages"@)), ("pages"@, pages.wire())]);
                }
                record_from(f)
            },
            ScrollRequest::Columns { columns } => {
                let kind = Value::Text(String::from_str("columns"));
                proof {
                    lemma_value_view(kind);
                }
                let mut f: Vec<(&'static str, Value)> = Vec::new();
                f.push(("kind", kind));
                f.push(("columns", columns.to_value()));
                proof {
                    assert(crate::value::named_view(f@) =~= seq![("kind"@, ValueV::Text("columns"@)), ("columns"@, columns.wire())]);
                }
                record_from(f)
            },
            ScrollRequest::ToRow { row } => {
                let kind = Value::Text(String::from_str("to-row"));
                proof {
                    lemma_value_view(kind);
                }
                let mut f: Vec<(&'static str, Value)> = Vec::new();
                f.push(("kind", kind));
                f.push(("row", row.to_value()));
                proof {
                    assert(crate::value::named_view(f@) =~= seq![("kind"@, ValueV::Text("to-row"@)), ("row"@, row.wire())]);
                }
                record_from(f)
            },
            ScrollRequest::ToTop {} => {
                let kind = Value::Text(String::from_str("to-top"));
                proof {
                    lemma_value_view(kind);
                }
                let mut f: Vec<(&'static str, Value)> = Vec::new();
                f.push(("kind", kind));
                proof {
                    assert(crate::value::named_view(f@) =~= seq![("kind"@, ValueV::Text("to-top"@))]);
                }
                record_from(f)
            },
            ScrollRequest::ToBottom {} => {
                let kind = Value::Text(String::from_str("to-bottom"));
                proof {
                    lemma_value_view(kind);
                }
                let mut f: Vec<(&'static str, Value)> = Vec::new();
                f.push(("kind", kind));
                proof {
                    assert(crate::value::named_view(f@) =~= seq![("kind"@, ValueV::Text("to-bottom"@))]);
                }
                record_from(f)
            },
            ScrollRequest::RevealRow { row, margin } => {
                let kind = Value::Text(String::from_str("reveal-row"));
                proof {
                    lemma_value_view(kind);
                }
                let mut f: Vec<(&'static str, Value)> = Vec::new();
                f.push(("kind", kind));
                f.push(("row", row.to_value()));
                f.push(("margin", margin.to_value()));
                proof {
                    assert(crate::value::named_view(f@) =~= seq![("kind"@, ValueV::Text("reveal-row"@)), ("row"@, row.wire()), ("margin"@, margin.wire())]);
                }
                record_from(f)
            },
        }
    }

    fn from_value(v: &Value) -> (r: Result<Self, WireError>) {
        proof {
            lemma_value_view(*v);
        }
        match v {
            Value::Record(a) => {
                proof {
                    lemma_field_value_view(a@, "kind"@);
                }
                match a.get("kind") {
                    Some(Value::Text(kt)) => {
                        let k = kt.as_str();
                        proof {
                            lemma_value_view(Value::Text(*kt));
                        }
                        if str_eq(k, "rows") {
                            let rows = match a.field::<i64>("rows") {
                                Ok(x) => x,
                                Err(e) => return Err(e),
                            };
                            Ok(ScrollRequest::Rows { rows })
                        } else if str_eq(k, "pages") {
                            let pages = match a.field::<i64>("pages") {
                                Ok(x) => x,
                                Err(e) => return Err(e),
                            };
                            Ok(ScrollRequest::Pages { pages })
                        } else if str_eq(k, "columns") {
                            let columns = match a.field::<i64>("columns") {
                                Ok(x) => x,
                                Err(e) => return Err(e),
                            };
                            Ok(ScrollRequest::Columns { columns })
                        } else if str_eq(k, "to-row") {
                            let row = match a.field::<u32>("row") {
                                Ok(x) => x,
                                Err(e) => return Err(e),
                            };
                            Ok(ScrollRequest::ToRow { row })
                        } else if str_eq(k, "to-top") {
                            Ok(ScrollRequest::ToTop {})
                        } else if str_eq(k, "to-bottom") {
                            Ok(ScrollRequest::ToBottom {})
                        } else if str_eq(k, "reveal-row") {
                            let row = match a.field::<u32>("row") {
                                Ok(x) => x,
                                Err(e) => return Err(e),
                            };
                            let margin = match a.field::<u32>("margin") {
                                Ok(x) => x,
                                Err(e) => return Err(e),
                            };
                            Ok(ScrollRequest::RevealRow { row, margin })
                        } else {
                            Err(WireError::Tag { got: String::from_str(k), expected: scrollrequest_tags() })
                        }
                    },
                    Some(other) => {
                        proof {
                            lemma_value_view(*other);
                        }
                        let inner = WireError::Shape { expected: "text" };
                        assert(error_view(inner) == shape("text"@));
                        Err(WireError::Field { field: "kind", source: Box::new(inner) })
                    },
                    None => Err(WireError::Missing { field: "kind" }),
                }
            },
            _ => Err(WireError::Shape { expected: "tagged record" }),
        }
    }

    fn is_optional() -> (r: bool) {
        false
    }

    proof fn lemma_wire_round_trip(x: Self) {
        reveal_strlit("columns");
        reveal_strlit("kind");
        reveal_strlit("margin");
        reveal_strlit("pages");
        reveal_strlit("reveal-row");
        reveal_strlit("row");
        reveal_strlit("rows");
        reveal_strlit("to-bottom");
        reveal_strlit("to-row");
        reveal_strlit("to-top");
        match x {
            ScrollRequest::Rows { rows } => {
                let f = seq![("kind"@, ValueV::Text("rows"@)), ("rows"@, rows.wire())];
                assert forall|i: int, j: int| 0 <= i < j < 2 implies f[i].0 != f[j].0 by {
                        if i == 0 && j == 1 {
                            assert("kind"@[0] != "rows"@[0]);
                        }
                }
                assert(names_distinct(f));
                lemma_distinct_fields(f);
                assert(f[0].0 == "kind"@);
                assert(f[1].0 == "rows"@);
                <i64 as Wire>::lemma_wire_round_trip(rows);
            },
            ScrollRequest::Pages { pages } => {
                assert("pages"@[0] != "rows"@[0]);
                let f = seq![("kind"@, ValueV::Text("pages"@)), ("pages"@, pages.wire())];
                assert forall|i: int, j: int| 0 <= i < j < 2 implies f[i].0 != f[j].0 by {
                        if i == 0 && j == 1 {
                            assert("kind"@[0] != "pages"@[0]);
                        }
                }
                assert(names_distinct(f));
                lemma_distinct_fields(f);
                assert(f[0].0 == "kind"@);
                assert(f[1].0 == "pages"@);
                <i64 as Wire>::lemma_wire_round_trip(pages);
            },
            ScrollRequest::Columns { columns } => {
                assert("columns"@[0] != "rows"@[0]);
                assert("columns"@[0] != "pages"@[0]);
                let f = seq![("kind"@, ValueV::Text("columns"@)), ("columns"@, columns.wire())];
                assert forall|i: int, j: int| 0 <= i < j < 2 implies f[i].0 != f[j].0 by {
                        if i == 0 && j == 1 {
                            assert("kind"@[0] != "columns"@[0]);
                        }
                }
                assert(names_distinct(f));
                lemma_distinct_fields(f);
                assert(f[0].0 == "kind"@);
                assert(f[1].0 == "columns"@);
                <i64 as Wire>::lemma_wire_round_trip(columns);
            },
            ScrollRequest::ToRow { row } => {
                assert("to-row"@[0] != "rows"@[0]);
                assert("to-row"@[0] != "pages"@[0]);
                assert("to-row"@[0] != "columns"@[0]);
                let f = seq![("kind"@, ValueV::Text("to-row"@)), ("row"@, row.wire())];
                assert forall|i: int, j: int| 0 <= i < j < 2 implies f[i].0 != f[j].0 by {
                        if i == 0 && j == 1 {
                            assert("kind"@[0] != "row"@[0]);
                        }
                }
                assert(names_distinct(f));
                lemma_distinct_fields(f);
                assert(f[0].0 == "kind"@);
                assert(f[1].0 == "row"@);
                <u32 as Wire>::lemma_wire_round_trip(row);
            },
            ScrollRequest::ToTop {} => {
                assert("to-top"@[0] != "rows"@[0]);
                assert("to-top"@[0] != "pages"@[0]);
                assert("to-top"@[0] != "columns"@[0]);
                assert("to-top"@[3] != "to-row"@[3]);
                let f = seq![("kind"@, ValueV::Text("to-top"@))];
                assert(names_distinct(f));
                lemma_distinct_fields(f);
                assert(f[0].0 == "kind"@);
            },
            ScrollRequest::ToBottom {} => {
                assert("to-bottom"@[0] != "rows"@[0]);
                assert("to-bottom"@[0] != "pages"@[0]);
                assert("to-bottom"@[0] != "columns"@[0]);
                assert("to-bottom"@[3] != "to-row"@[3]);
                assert("to-bottom"@[3] != "to-top"@[3]);
                let f = seq![("kind"@, ValueV::Text("to-bottom"@))];
                assert(names_distinct(f));
                lemma_distinct_fields(f);
                assert(f[0].0 == "kind"@);
            },
            ScrollRequest::RevealRow { row, margin } => {
                assert("reveal-row"@[1] != "rows"@[1]);
                assert("reveal-row"@[0] != "pages"@[0]);
                assert("reveal-row"@[0] != "columns"@[0]);
                assert("reveal-row"@[0] != "to-row"@[0]);
                assert("reveal-row"@[0] != "to-top"@[0]);
                assert("reveal-row"@[0] != "to-bottom"@[0]);
                let f = seq![("kind"@, ValueV::Text("reveal-row"@)), ("row"@, row.wire()), ("margin"@, margin.wire())];
                assert forall|i: int, j: int| 0 <= i < j < 3 implies f[i].0 != f[j].0 by {
                        if i == 0 && j == 1 {
                            assert("kind"@[0] != "row"@[0]);
                        } else if i == 0 && j == 2 {
                            assert("kind"@[0] != "margin"@[0]);
                        } else if i == 1 && j == 2 {
                            assert("row"@[0] != "margin"@[0]);
                        }
                }
                assert(names_distinct(f));
                lemma_distinct_fields(f);
                assert(f[0].0 == "kind"@);
                assert(f[1].0 == "row"@);
                <u32 as Wire>::lemma_wire_round_trip(row);
                assert(f[2].0 == "margin"@);
                <u32 as Wire>::lemma_wire_round_trip(margin);
            },
        }
    }
}
/// The tags [`Binding`] is spelled with.
pub open spec fn binding_tags_v() -> Seq<Seq<char>> {
    seq!["capability"@, "source"@]
}

fn binding_tags() -> (r: Vec<&'static str>)
    ensures
        names_view(r@) == binding_tags_v(),
{
    let mut r: Vec<&'static str> = Vec::new();
    r.push("capability");
    r.push("source");
    assert(names_view(r@) =~= binding_tags_v());
    r
}

impl Wire for Binding {
    open spec fn wire(&self) -> ValueV {
        match self {
            Binding::Capability { name, args } => record_of(seq![("kind"@, ValueV::Text("capability"@)), ("name"@, name.wire()), ("args"@, args.wire())]),
            Binding::Source { source } => record_of(seq![("kind"@, ValueV::Text("source"@)), ("source"@, source.wire())]),
        }
    }

    open spec fn fits(&self) -> bool {
        match self {
            Binding::Capability { name, args } => name.fits() && args.fits(),
            Binding::Source { source } => source.fits(),
        }
    }

    open spec fn unwire(v: ValueV) -> Result<ValueV, WireErrorV> {
        match v {
            ValueV::Record(rec) => match crate::value::field_value(rec, "kind"@) {
                Some(ValueV::Text(t)) => {
                    if t == "capability"@ {
                        match field_unwire::<String>(rec, "name"@) {
                            Err(e) => Err(e),
                            Ok(w0) =>                             match field_unwire::<Args>(rec, "args"@) {
                                Err(e) => Err(e),
                                Ok(w1) => Ok(record_of(seq![("kind"@, ValueV::Text("capability"@)), ("name"@, w0), ("args"@, w1)])),
                            },
                        }
                    } else if t == "source"@ {
                        match field_unwire::<String>(rec, "source"@) {
                            Err(e) => Err(e),
                            Ok(w0) => Ok(record_of(seq![("kind"@, ValueV::Text("source"@)), ("source"@, w0)])),
                        }
                    } else {
                        Err(WireErrorV::Tag { got: t, expected: binding_tags_v() })
                    }
                },
                Some(_) => Err(WireErrorV::Field { field: "kind"@, source: Box::new(shape("text"@)) }),
                None => Err(WireErrorV::Missing { field: "kind"@ }),
            },
            _ => Err(shape("tagged record"@)),
        }
    }

    open spec fn optional() -> bool {
        false
    }

    fn to_value(&self) -> (r: Value) {
        match self {
            Binding::Capability { name, args } => {
                let kind = Value::Text(String::from_str("capability"));
                proof {
                    lemma_value_view(kind);
                }
                let mut f: Vec<(&'static str, Value)> = Vec::new();
                f.push(("kind", kind));
                f.push(("name", name.to_value()));
                f.push(("args", args.to_value()));
                proof {
                    assert(crate::value::named_view(f@) =~= seq![("kind"@, ValueV::Text("capability"@)), ("name"@, name.wire()), ("args"@, args.wire())]);
                }
                record_from(f)
            },
            Binding::Source { source } => {
                let kind = Value::Text(String::from_str("source"));
                proof {
                    lemma_value_view(kind);
                }
                let mut f: Vec<(&'static str, Value)> = Vec::new();
                f.push(("kind", kind));
                f.push(("source", source.to_value()));
                proof {
                    assert(crate::value::named_view(f@) =~= seq![("kind"@, ValueV::Text("source"@)), ("source"@, source.wire())]);
                }
                record_from(f)
            },
        }
    }

    fn from_value(v: &Value) -> (r: Result<Self, WireError>) {
        proof {
            lemma_value_view(*v);
        }
        match v {
            Value::Record(a) => {
                proof {
                    lemma_field_value_view(a@, "kind"@);
                }
                match a.get("kind") {
                    Some(Value::Text(kt)) => {
                        let k = kt.as_str();
                        proof {
                            lemma_value_view(Value::Text(*kt));
                        }
                        if str_eq(k, "capability") {
                            let name = match a.field::<String>("name") {
                                Ok(x) => x,
                                Err(e) => return Err(e),
                            };
                            let args = match a.field::<Args>("args") {
                                Ok(x) => x,
                                Err(e) => return Err(e),
                            };
                            Ok(Binding::Capability { name, args })
                        } else if str_eq(k, "source") {
                            let source = match a.field::<String>("source") {
                                Ok(x) => x,
                                Err(e) => return Err(e),
                            };
                            Ok(Binding::Source { source })
                        } else {
                            Err(WireError::Tag { got: String::from_str(k), expected: binding_tags() })
                        }
                    },
                    Some(other) => {
                        proof {
                            lemma_value_view(*other);
                        }
                        let inner = WireError::Shape { expected: "text" };
                        assert(error_view(inner) == shape("text"@));
                        Err(WireError::Field { field: "kind", source: Box::new(inner) })
                    },
                    None => Err(WireError::Missing { field: "kind" }),
                }
            },
            _ => Err(WireError::Shape { expected: "tagged record" }),
        }
    }

    fn is_optional() -> (r: bool) {
        false
    }

    proof fn lemma_wire_round_trip(x: Self) {
        reveal_strlit("args");
        reveal_strlit("capability");
        reveal_strlit("kind");
        reveal_strlit("name");
        reveal_strlit("source");
        match x {
            Binding::Capability { name, args } => {
                let f = seq![("kind"@, ValueV::Text("capability"@)), ("name"@, name.wire()), ("args"@, args.wire())];
                assert forall|i: int, j: int| 0 <= i < j < 3 implies f[i].0 != f[j].0 by {
                        if i == 0 && j == 1 {
                            assert("kind"@[0] != "name"@[0]);
                        } else if i == 0 && j == 2 {
                            assert("kind"@[0] != "args"@[0]);
                        } else if i == 1 && j == 2 {
                            assert("name"@[0] != "args"@[0]);
                        }
                }
                assert(names_distinct(f));
                lemma_distinct_fields(f);
                assert(f[0].0 == "kind"@);
                assert(f[1].0 == "name"@);
                <String as Wire>::lemma_wire_round_trip(name);
                assert(f[2].0 == "args"@);
                <Args as Wire>::lemma_wire_round_trip(args);
            },
            Binding::Source { source } => {
                assert("source"@[0] != "capability"@[0]);
                let f = seq![("kind"@, ValueV::Text("source"@)), ("source"@, source.wire())];
                assert forall|i: int, j: int| 0 <= i < j < 2 implies f[i].0 != f[j].0 by {
                        if i == 0 && j == 1 {
                            assert("kind"@[0] != "source"@[0]);
                        }
                }
                assert(names_distinct(f));
                lemma_distinct_fields(f);
                assert(f[0].0 == "kind"@);
                assert(f[1].0 == "source"@);
                <String as Wire>::lemma_wire_round_trip(source);
            },
        }
    }
}
} // verus!
