//! Which language a file is, how first-class it is, and how to comment it.
//!
//! A language is declared at runtime (`define-language`): extensions, an
//! optional grammar, an optional server, a line-comment prefix. Its tier is
//! whether this build can load its grammar. A later declaration takes an
//! extension from an earlier one, so the shipped set can be overridden.

use vstd::prelude::*;

use crate::request::{LanguageId, LanguageSpec, Tier};
use crate::text_util::{
    chars_of, eq_ignore_ascii_case, is_white_space, push_char, push_chars, push_str, spec_eq_ignore_ascii_case,
    spec_is_white_space, str_eq, string_of,
};
use crate::value::{
    lemma_record_view_with_fields, lemma_value_view, record_view, value_view, values_view, with_fields, Args, Value, ValueV,
};

verus! {

// ---------------------------------------------------------------------------
// Toggling comments
// ---------------------------------------------------------------------------

/// A line with nothing but white space on it.
pub open spec fn blank(l: Seq<char>) -> bool {
    forall|i: int| 0 <= i < l.len() ==> spec_is_white_space(#[trigger] l[i])
}

/// How many white-space characters a line starts with.
pub open spec fn indent_of(l: Seq<char>) -> nat
    decreases l.len(),
{
    if l.len() == 0 || !spec_is_white_space(l[0]) {
        0
    } else {
        1 + indent_of(l.drop_first())
    }
}

/// Whether `s` starts with `p`.
pub open spec fn starts_with(s: Seq<char>, p: Seq<char>) -> bool {
    p.len() <= s.len() && s.take(p.len() as int) == p
}

/// A line whose first non-space text is the prefix.
pub open spec fn commented(l: Seq<char>, p: Seq<char>) -> bool {
    starts_with(l.skip(indent_of(l) as int), p)
}

/// Every line that is not blank is commented.
pub open spec fn all_commented(ls: Seq<Seq<char>>, p: Seq<char>) -> bool {
    forall|i: int| 0 <= i < ls.len() && !blank(#[trigger] ls[i]) ==> commented(ls[i], p)
}

/// The shallowest indent among the lines that are not blank, if any.
pub open spec fn min_indent(ls: Seq<Seq<char>>) -> Option<nat>
    decreases ls.len(),
{
    if ls.len() == 0 {
        None
    } else {
        let last = ls.last();
        let rest = min_indent(ls.drop_last());
        if blank(last) {
            rest
        } else {
            match rest {
                Some(m) => Some(if indent_of(last) < m { indent_of(last) } else { m }),
                None => Some(indent_of(last)),
            }
        }
    }
}

/// A line with the prefix and a space put at column `m`; a blank line is
/// left alone.
pub open spec fn comment_line(l: Seq<char>, p: Seq<char>, m: nat) -> Seq<char> {
    if blank(l) {
        l
    } else {
        l.take(m as int) + p + seq![' '] + l.skip(m as int)
    }
}

/// A line with its prefix, and one space after it if there is one, taken
/// out; a line that does not carry the prefix is left alone.
pub open spec fn uncomment_line(l: Seq<char>, p: Seq<char>) -> Seq<char> {
    if blank(l) {
        l
    } else {
        let k = indent_of(l) as int;
        let after = l.skip(k);
        if starts_with(after, p) {
            let rest = after.skip(p.len() as int);
            l.take(k) + if rest.len() > 0 && rest[0] == ' ' {
                rest.skip(1)
            } else {
                rest
            }
        } else {
            l
        }
    }
}

/// `gc`: a run whose every non-blank line is commented is uncommented;
/// otherwise every non-blank line is commented at the shallowest indent. A
/// run with nothing on it, or an empty prefix, is left as it is.
pub open spec fn spec_toggle(ls: Seq<Seq<char>>, p: Seq<char>) -> Seq<Seq<char>> {
    match min_indent(ls) {
        None => ls,
        Some(m) => if p.len() == 0 {
            ls
        } else if all_commented(ls, p) {
            Seq::new(ls.len(), |i: int| uncomment_line(ls[i], p))
        } else {
            Seq::new(ls.len(), |i: int| comment_line(ls[i], p, m))
        },
    }
}

/// The text of each line.
pub open spec fn lines_view(ls: Seq<&str>) -> Seq<Seq<char>> {
    ls.map_values(|l: &str| l@)
}

/// The text of each string.
pub open spec fn strings_view(ls: Seq<String>) -> Seq<Seq<char>> {
    ls.map_values(|l: String| l@)
}

pub(crate) fn is_blank(l: &Vec<char>) -> (r: bool)
    ensures
        r == blank(l@),
{
    let mut i: usize = 0;
    while i < l.len()
        invariant
            i <= l.len(),
            forall|j: int| 0 <= j < i ==> spec_is_white_space(#[trigger] l@[j]),
        decreases l.len() - i,
    {
        if !is_white_space(l[i]) {
            return false;
        }
        i = i + 1;
    }
    true
}

proof fn lemma_indent_of(l: Seq<char>)
    ensures
        indent_of(l) <= l.len(),
        forall|j: int| 0 <= j < indent_of(l) ==> spec_is_white_space(#[trigger] l[j]),
        indent_of(l) < l.len() ==> !spec_is_white_space(l[indent_of(l) as int]),
    decreases l.len(),
{
    if l.len() > 0 && spec_is_white_space(l[0]) {
        lemma_indent_of(l.drop_first());
        assert forall|j: int| 0 <= j < indent_of(l) implies spec_is_white_space(#[trigger] l[j]) by {
            if j > 0 {
                assert(l[j] == l.drop_first()[j - 1]);
            }
        }
    }
}

proof fn lemma_indent_is(l: Seq<char>, k: nat)
    requires
        k <= l.len(),
        forall|j: int| 0 <= j < k ==> spec_is_white_space(#[trigger] l[j]),
        k < l.len() ==> !spec_is_white_space(l[k as int]),
    ensures
        indent_of(l) == k,
    decreases k,
{
    if k > 0 {
        assert forall|j: int| 0 <= j < k - 1 implies spec_is_white_space(#[trigger] l.drop_first()[j]) by {
            assert(l.drop_first()[j] == l[j + 1]);
        }
        assert(spec_is_white_space(l[0]));
        lemma_indent_is(l.drop_first(), (k - 1) as nat);
    }
}

/// How many white-space characters a line starts with, at most its length.
pub(crate) proof fn lemma_indent_bound(l: Seq<char>)
    ensures
        indent_of(l) <= l.len(),
{
    lemma_indent_of(l);
}

pub(crate) fn indent_chars(l: &Vec<char>) -> (r: usize)
    ensures
        r == indent_of(l@),
{
    let mut i: usize = 0;
    while i < l.len() && is_white_space(l[i])
        invariant
            i <= l.len(),
            forall|j: int| 0 <= j < i ==> spec_is_white_space(#[trigger] l@[j]),
        decreases l.len() - i,
    {
        i = i + 1;
    }
    proof {
        lemma_indent_is(l@, i as nat);
    }
    i
}

fn has_prefix_at(l: &Vec<char>, at: usize, p: &Vec<char>) -> (r: bool)
    requires
        at <= l.len(),
    ensures
        r == starts_with(l@.skip(at as int), p@),
{
    if l.len() - at < p.len() {
        return false;
    }
    let mut i: usize = 0;
    while i < p.len()
        invariant
            i <= p.len(),
            at + p.len() <= l.len(),
            forall|j: int| 0 <= j < i ==> l@[at + j] == p@[j],
        decreases p.len() - i,
    {
        if l[at + i] != p[i] {
            assert(l@.skip(at as int).take(p@.len() as int)[i as int] != p@[i as int]);
            return false;
        }
        i = i + 1;
    }
    assert(l@.skip(at as int).take(p@.len() as int) =~= p@);
    true
}

fn comment(l: &Vec<char>, p: &Vec<char>, m: usize) -> (r: String)
    requires
        !blank(l@) ==> m <= l@.len(),
    ensures
        r@ == comment_line(l@, p@, m as nat),
{
    if is_blank(l) {
        return string_of(l);
    }
    let mut out = String::new();
    let mut i: usize = 0;
    while i < m
        invariant
            i <= m,
            m <= l.len(),
            out@ == l@.take(i as int),
        decreases m - i,
    {
        push_char(&mut out, l[i]);
        i = i + 1;
        assert(out@ =~= l@.take(i as int));
    }
    push_chars(&mut out, p);
    push_char(&mut out, ' ');
    let ghost mid = out@;
    let mut k: usize = m;
    while k < l.len()
        invariant
            m <= k <= l.len(),
            out@ == mid + l@.subrange(m as int, k as int),
        decreases l.len() - k,
    {
        push_char(&mut out, l[k]);
        k = k + 1;
        assert(out@ =~= mid + l@.subrange(m as int, k as int));
    }
    assert(l@.subrange(m as int, k as int) =~= l@.skip(m as int));
    out
}

fn uncomment(l: &Vec<char>, p: &Vec<char>) -> (r: String)
    ensures
        r@ == uncomment_line(l@, p@),
{
    if is_blank(l) {
        return string_of(l);
    }
    let k = indent_chars(l);
    proof {
        lemma_indent_of(l@);
    }
    if !has_prefix_at(l, k, p) {
        return string_of(l);
    }
    let ghost rest = l@.skip(k as int).skip(p@.len() as int);
    let mut out = String::new();
    let mut i: usize = 0;
    while i < k
        invariant
            i <= k,
            k <= l.len(),
            out@ == l@.take(i as int),
        decreases k - i,
    {
        push_char(&mut out, l[i]);
        i = i + 1;
        assert(out@ =~= l@.take(i as int));
    }
    let mut from = k + p.len();
    if from < l.len() && l[from] == ' ' {
        from = from + 1;
    }
    let ghost mid = out@;
    let mut j: usize = from;
    while j < l.len()
        invariant
            from <= j <= l.len(),
            out@ == mid + l@.subrange(from as int, j as int),
        decreases l.len() - j,
    {
        push_char(&mut out, l[j]);
        j = j + 1;
        assert(out@ =~= mid + l@.subrange(from as int, j as int));
    }
    assert(l@.subrange(from as int, j as int) =~= (if rest.len() > 0 && rest[0] == ' ' {
        rest.skip(1)
    } else {
        rest
    }));
    out
}

/// `gc` over a run of lines with a comment prefix: see [`spec_toggle`].
pub fn toggle_comment(lines: &[&str], prefix: &str) -> (r: Vec<String>)
    ensures
        strings_view(r@) == spec_toggle(lines_view(lines@), prefix@),
{
    let ghost ls = lines_view(lines@);
    let p = chars_of(prefix);
    let mut chars: Vec<Vec<char>> = Vec::new();
    let mut i: usize = 0;
    while i < lines.len()
        invariant
            i <= lines.len(),
            ls == lines_view(lines@),
            chars@.len() == i,
            forall|j: int| 0 <= j < i ==> (#[trigger] chars@[j])@ == ls[j],
        decreases lines.len() - i,
    {
        chars.push(chars_of(lines[i]));
        i = i + 1;
    }
    // The shallowest indent, and whether every non-blank line is commented.
    let mut min: Option<usize> = None;
    let mut all: bool = true;
    let mut i: usize = 0;
    while i < chars.len()
        invariant
            i <= chars.len(),
            chars@.len() == ls.len(),
            forall|j: int| 0 <= j < chars@.len() ==> (#[trigger] chars@[j])@ == ls[j],
            min == (match min_indent(ls.take(i as int)) {
                Some(m) => Some(m as usize),
                None => None::<usize>,
            }),
            min_indent(ls.take(i as int)) matches Some(m) ==> m <= usize::MAX,
            all == all_commented(ls.take(i as int), p@),
        decreases chars.len() - i,
    {
        let l = &chars[i];
        proof {
            assert(ls.take(i + 1).drop_last() =~= ls.take(i as int));
            assert(ls.take(i + 1).last() == l@);
            lemma_indent_of(l@);
        }
        if !is_blank(l) {
            let k = indent_chars(l);
            min = match min {
                Some(m) => Some(if k < m { k } else { m }),
                None => Some(k),
            };
            if !has_prefix_at(l, k, &p) {
                all = false;
            }
        }
        proof {
            let t = ls.take(i + 1);
            assert forall|j: int| 0 <= j < t.len() && !blank(#[trigger] t[j]) implies commented(t[j], p@) == (if j < i {
                commented(ls.take(i as int)[j], p@)
            } else {
                commented(l@, p@)
            }) by {
                if j < i {
                    assert(t[j] == ls.take(i as int)[j]);
                }
            }
            if all {
                assert(all_commented(t, p@));
            } else {
                if all_commented(ls.take(i as int), p@) {
                    assert(!commented(t[i as int], p@) && !blank(t[i as int]));
                } else {
                    let w = choose|j: int| 0 <= j < i && !blank(#[trigger] ls.take(i as int)[j]) && !commented(ls.take(i as int)[j], p@);
                    assert(t[w] == ls.take(i as int)[w]);
                }
            }
        }
        i = i + 1;
    }
    proof {
        assert(ls.take(i as int) =~= ls);
    }
    let mut out: Vec<String> = Vec::new();
    let mut i: usize = 0;
    while i < chars.len()
        invariant
            i <= chars.len(),
            chars@.len() == ls.len(),
            forall|j: int| 0 <= j < chars@.len() ==> (#[trigger] chars@[j])@ == ls[j],
            min == (match min_indent(ls) {
                Some(m) => Some(m as usize),
                None => None::<usize>,
            }),
            min_indent(ls) matches Some(m) ==> m <= usize::MAX,
            all == all_commented(ls, p@),
            out@.len() == i,
            forall|j: int| 0 <= j < i ==> (#[trigger] out@[j])@ == spec_toggle(ls, p@)[j],
        decreases chars.len() - i,
    {
        let l = &chars[i];
        let line = match min {
            None => string_of(l),
            Some(m) => {
                if p.len() == 0 {
                    string_of(l)
                } else if all {
                    uncomment(l, &p)
                } else {
                    proof {
                        lemma_min_indent_bound(ls, i as int);
                        lemma_indent_of(l@);
                    }
                    comment(l, &p, m)
                }
            },
        };
        assert(line@ == spec_toggle(ls, p@)[i as int]);
        out.push(line);
        i = i + 1;
    }
    assert(strings_view(out@) =~= spec_toggle(ls, p@));
    out
}

/// The shallowest indent is no deeper than any non-blank line's.
proof fn lemma_min_indent_bound(ls: Seq<Seq<char>>, i: int)
    requires
        0 <= i < ls.len(),
    ensures
        !blank(ls[i]) ==> (min_indent(ls) matches Some(m) && m <= indent_of(ls[i])),
    decreases ls.len(),
{
    if i < ls.len() - 1 {
        lemma_min_indent_bound(ls.drop_last(), i);
        assert(ls.drop_last()[i] == ls[i]);
    }
}

/// There is a shallowest indent exactly when some line is not blank.
proof fn lemma_min_indent_some(ls: Seq<Seq<char>>)
    ensures
        min_indent(ls) is Some <==> exists|i: int| 0 <= i < ls.len() && !blank(#[trigger] ls[i]),
    decreases ls.len(),
{
    if ls.len() > 0 {
        lemma_min_indent_some(ls.drop_last());
        if min_indent(ls.drop_last()) is Some {
            let w = choose|i: int| 0 <= i < ls.drop_last().len() && !blank(#[trigger] ls.drop_last()[i]);
            assert(ls[w] == ls.drop_last()[w]);
        }
        if exists|i: int| 0 <= i < ls.len() && !blank(#[trigger] ls[i]) {
            let w = choose|i: int| 0 <= i < ls.len() && !blank(#[trigger] ls[i]);
            if w < ls.len() - 1 {
                assert(ls.drop_last()[w] == ls[w]);
            }
        }
    }
}

/// Commenting a line at or left of its indent leaves a line that is
/// commented, whose indent is where the prefix went, and that uncomments
/// back to the line.
proof fn lemma_comment_then_uncomment(l: Seq<char>, p: Seq<char>, m: nat)
    requires
        p.len() > 0,
        !spec_is_white_space(p[0]),
        !blank(l),
        m <= indent_of(l),
    ensures
        !blank(comment_line(l, p, m)),
        indent_of(comment_line(l, p, m)) == m,
        commented(comment_line(l, p, m), p),
        uncomment_line(comment_line(l, p, m), p) == l,
{
    lemma_indent_of(l);
    let t = comment_line(l, p, m);
    assert(t == l.take(m as int) + p + seq![' '] + l.skip(m as int));
    assert(t[m as int] == p[0]);
    assert forall|j: int| 0 <= j < m implies spec_is_white_space(#[trigger] t[j]) by {
        assert(t[j] == l[j]);
    }
    lemma_indent_is(t, m);
    let after = t.skip(m as int);
    assert(after =~= p + seq![' '] + l.skip(m as int));
    assert(after.take(p.len() as int) =~= p);
    let rest = after.skip(p.len() as int);
    assert(rest =~= seq![' '] + l.skip(m as int));
    assert(rest.skip(1) =~= l.skip(m as int));
    assert(t.take(m as int) =~= l.take(m as int));
    assert(l.take(m as int) + l.skip(m as int) =~= l);
}

/// `gc` twice is the identity whenever the first `gc` comments: the prefix
/// goes in at the shallowest indent and comes back out with the space it
/// brought. This needs a prefix that does not start with white space, which
/// would merge into the indent. When the first `gc` uncomments instead, the
/// second one need not give the run back: `//c` uncomments to `c` and
/// comments to `// c`.
pub proof fn lemma_toggle_twice(ls: Seq<Seq<char>>, p: Seq<char>)
    requires
        p.len() > 0 ==> !spec_is_white_space(p[0]),
        !(min_indent(ls) is Some && p.len() > 0 && all_commented(ls, p)),
    ensures
        spec_toggle(spec_toggle(ls, p), p) == ls,
{
    if min_indent(ls) is Some && p.len() > 0 {
        let m = min_indent(ls)->0;
        let t = spec_toggle(ls, p);
        assert(t == Seq::new(ls.len(), |i: int| comment_line(ls[i], p, m)));
        assert forall|i: int| 0 <= i < ls.len() implies (blank(#[trigger] t[i]) == blank(ls[i])) && (!blank(ls[i]) ==> commented(
            t[i],
            p,
        )) && uncomment_line(t[i], p) == ls[i] by {
            if !blank(ls[i]) {
                lemma_min_indent_bound(ls, i);
                lemma_comment_then_uncomment(ls[i], p, m);
            }
        }
        lemma_min_indent_some(ls);
        lemma_min_indent_some(t);
        let w = choose|i: int| 0 <= i < ls.len() && !blank(#[trigger] ls[i]);
        assert(!blank(t[w]));
        assert(all_commented(t, p));
        assert(spec_toggle(t, p) =~= ls);
    }
}

// ---------------------------------------------------------------------------
// The table
// ---------------------------------------------------------------------------

/// Why a declaration is refused: it could never match a file.
#[derive(Debug, Clone, PartialEq, Eq)]
pub enum Invalid {
    /// The name is empty or white space.
    Nameless,
    /// An extension with a dot in it: a path's extension never has one.
    DottedExtension(String),
}

impl Invalid {
    /// What the REPL prints.
    pub fn message(&self) -> (r: String)
        ensures
            r@ == match *self {
                Invalid::Nameless => "a language needs a name"@,
                Invalid::DottedExtension(e) => "extension `"@ + e@ + "` has a dot in it; write it the way a path's extension answers, without one"@,
            },
    {
        match self {
            Invalid::Nameless => String::from_str("a language needs a name"),
            Invalid::DottedExtension(e) => {
                let mut out = String::from_str("extension `");
                push_str(&mut out, e.as_str());
                push_str(&mut out, "` has a dot in it; write it the way a path's extension answers, without one");
                out
            },
        }
    }
}

/// A declared language, as values.
pub struct Declared {
    pub name: Seq<char>,
    pub spec: LanguageSpec,
}

/// The languages declared, in declaration order.
pub open spec fn declared_view(d: Seq<(LanguageId, LanguageSpec)>) -> Seq<Declared> {
    d.map_values(|e: (LanguageId, LanguageSpec)| Declared { name: e.0.0@, spec: e.1 })
}

/// Where `name` is declared, or the length if it is not.
pub open spec fn find_language(d: Seq<Declared>, name: Seq<char>) -> int
    decreases d.len(),
{
    if d.len() == 0 {
        0
    } else if d[0].name == name {
        0
    } else {
        1 + find_language(d.drop_first(), name)
    }
}

/// The first extension with a dot in it, if any.
pub open spec fn first_dotted(exts: Seq<String>) -> Option<int>
    decreases exts.len(),
{
    if exts.len() == 0 {
        None
    } else if exts[0]@.contains('.') {
        Some(0)
    } else {
        match first_dotted(exts.drop_first()) {
            Some(i) => Some(i + 1),
            None => None,
        }
    }
}

/// Whether a declaration claims `ext`, in whatever ASCII case.
pub open spec fn claims(d: Declared, ext: Seq<char>) -> bool {
    exists|j: int| 0 <= j < d.spec.extensions@.len() && spec_eq_ignore_ascii_case(#[trigger] d.spec.extensions@[j]@, ext)
}

/// The most recently declared language claiming `ext`: `recency` lists
/// where each declaration stands, from the least to the most recently
/// declared.
pub open spec fn last_claiming(d: Seq<Declared>, recency: Seq<int>, ext: Seq<char>) -> Option<int>
    decreases recency.len(),
{
    if recency.len() == 0 {
        None
    } else if 0 <= recency.last() < d.len() && claims(d[recency.last()], ext) {
        Some(recency.last())
    } else {
        last_claiming(d, recency.drop_last(), ext)
    }
}

/// `recency` without `i`, in order.
pub open spec fn without(recency: Seq<int>, i: int) -> Seq<int>
    decreases recency.len(),
{
    if recency.len() == 0 {
        recency
    } else if recency.last() == i {
        without(recency.drop_last(), i)
    } else {
        without(recency.drop_last(), i).push(recency.last())
    }
}

/// The declared languages, and the grammars this build can load.
#[derive(Debug, Clone, PartialEq, Eq)]
pub struct Languages {
    declared: Vec<(LanguageId, LanguageSpec)>,
    grammars: Vec<String>,
    recency: Vec<usize>,
}

/// The table as values.
pub struct LanguagesView {
    pub declared: Seq<Declared>,
    pub grammars: Seq<Seq<char>>,
    /// Where each declaration stands, from the least to the most recently
    /// declared.
    pub recency: Seq<int>,
}

impl View for Languages {
    type V = LanguagesView;

    closed spec fn view(&self) -> LanguagesView {
        LanguagesView {
            declared: declared_view(self.declared@),
            grammars: strings_view(self.grammars@),
            recency: self.recency@.map_values(|i: usize| i as int),
        }
    }
}

/// A language's tier: first class exactly when it is declared with a grammar
/// this build has.
pub open spec fn spec_tier(t: LanguagesView, name: Seq<char>) -> Tier {
    let i = find_language(t.declared, name);
    if i < t.declared.len() && t.declared[i].spec.grammar is Some && t.grammars.contains(
        t.declared[i].spec.grammar->0@,
    ) {
        Tier::FirstClass
    } else {
        Tier::SecondTier
    }
}

/// Where a path ends once trailing separators are dropped.
pub open spec fn strip_end(s: Seq<char>) -> int
    decreases s.len(),
{
    if s.len() == 0 {
        0
    } else if s.last() == '/' {
        strip_end(s.drop_last())
    } else {
        s.len() as int
    }
}

/// Where the last component of `s` starts: just after its last `/`.
pub open spec fn component_start(s: Seq<char>) -> int
    decreases s.len(),
{
    if s.len() == 0 {
        0
    } else if s.last() == '/' {
        s.len() as int
    } else {
        component_start(s.drop_last())
    }
}

/// Where the last `.` of `s` is.
pub open spec fn last_dot(s: Seq<char>) -> Option<int>
    decreases s.len(),
{
    if s.len() == 0 {
        None
    } else if s.last() == '.' {
        Some(s.len() - 1)
    } else {
        last_dot(s.drop_last())
    }
}

/// A path's last component, trailing separators ignored.
pub open spec fn last_component(path: Seq<char>) -> Seq<char> {
    let end = strip_end(path);
    path.subrange(component_start(path.take(end)), end)
}

/// The extension of a path's last component: what follows its final dot,
/// when that dot is not the component's first character. `.` and `..` have
/// none.
pub open spec fn spec_extension(path: Seq<char>) -> Option<Seq<char>> {
    let name = last_component(path);
    if name == "."@ || name == ".."@ {
        None
    } else {
        match last_dot(name) {
            Some(d) => if d == 0 {
                None
            } else {
                Some(name.skip(d + 1))
            },
            None => None,
        }
    }
}

proof fn lemma_find_language(d: Seq<Declared>, name: Seq<char>)
    ensures
        0 <= find_language(d, name) <= d.len(),
        find_language(d, name) < d.len() ==> d[find_language(d, name)].name == name,
        forall|j: int| 0 <= j < find_language(d, name) ==> d[j].name != name,
    decreases d.len(),
{
    if d.len() > 0 && d[0].name != name {
        lemma_find_language(d.drop_first(), name);
        assert forall|j: int| 0 <= j < find_language(d, name) implies d[j].name != name by {
            if j > 0 {
                assert(d[j] == d.drop_first()[j - 1]);
            }
        }
    }
}

proof fn lemma_find_language_at(d: Seq<Declared>, name: Seq<char>, i: int)
    requires
        0 <= i <= d.len(),
        i < d.len() ==> d[i].name == name,
        forall|j: int| 0 <= j < i ==> d[j].name != name,
    ensures
        find_language(d, name) == i,
    decreases i,
{
    if i > 0 {
        assert forall|j: int| 0 <= j < i - 1 implies d.drop_first()[j].name != name by {
            assert(d.drop_first()[j] == d[j + 1]);
        }
        lemma_find_language_at(d.drop_first(), name, i - 1);
    }
}

fn contains_dot(s: &String) -> (r: bool)
    ensures
        r == s@.contains('.'),
{
    let chars = chars_of(s.as_str());
    let mut i: usize = 0;
    while i < chars.len()
        invariant
            i <= chars.len(),
            chars@ == s@,
            forall|j: int| 0 <= j < i ==> chars@[j] != '.',
        decreases chars.len() - i,
    {
        if chars[i] == '.' {
            assert(s@[i as int] == '.');
            return true;
        }
        i = i + 1;
    }
    false
}

fn find_dotted(exts: &Vec<String>) -> (r: Option<usize>)
    ensures
        match first_dotted(exts@) {
            Some(i) => r == Some(i as usize) && 0 <= i < exts@.len(),
            None => r is None,
        },
{
    let mut i: usize = 0;
    assert(exts@.skip(0) =~= exts@);
    while i < exts.len()
        invariant
            i <= exts.len(),
            first_dotted(exts@) == match first_dotted(exts@.skip(i as int)) {
                Some(k) => Some(k + i),
                None => None::<int>,
            },
        decreases exts.len() - i,
    {
        proof {
            assert(exts@.skip(i as int).drop_first() =~= exts@.skip(i + 1));
            assert(exts@.skip(i as int)[0] == exts@[i as int]);
        }
        if contains_dot(&exts[i]) {
            return Some(i);
        }
        i = i + 1;
    }
    proof {
        assert(exts@.skip(i as int) =~= Seq::<String>::empty());
    }
    None
}

impl Languages {
    /// An empty table over the grammars this build can load.
    pub fn new(grammars: &[&str]) -> (r: Languages)
        ensures
            r@.declared == Seq::<Declared>::empty(),
            r@.grammars == lines_view(grammars@),
            r@.recency == Seq::<int>::empty(),
    {
        let mut names: Vec<String> = Vec::new();
        let mut i: usize = 0;
        while i < grammars.len()
            invariant
                i <= grammars.len(),
                strings_view(names@) == lines_view(grammars@.take(i as int)),
            decreases grammars.len() - i,
        {
            let ghost before = names@;
            let g = String::from_str(grammars[i]);
            names.push(g);
            assert(strings_view(names@) =~= strings_view(before).push(grammars@[i as int]@));
            assert(lines_view(grammars@.take(i + 1)) =~= lines_view(grammars@.take(i as int)).push(grammars@[i as int]@));
            i = i + 1;
        }
        assert(grammars@.take(i as int) =~= grammars@);
        let r = Languages { declared: Vec::new(), grammars: names, recency: Vec::new() };
        assert(r@.declared =~= Seq::<Declared>::empty());
        assert(r@.recency =~= Seq::<int>::empty());
        r
    }

    /// The grammars this build can load.
    pub fn grammars(&self) -> (r: Vec<&str>)
        ensures
            lines_view(r@) == self@.grammars,
    {
        let mut out: Vec<&str> = Vec::new();
        let mut i: usize = 0;
        while i < self.grammars.len()
            invariant
                i <= self.grammars.len(),
                lines_view(out@) == strings_view(self.grammars@.take(i as int)),
            decreases self.grammars.len() - i,
        {
            let ghost before = out@;
            out.push(self.grammars[i].as_str());
            assert(lines_view(out@) =~= lines_view(before).push(self.grammars@[i as int]@));
            assert(strings_view(self.grammars@.take(i + 1)) =~= strings_view(self.grammars@.take(i as int)).push(self.grammars@[i as int]@));
            i = i + 1;
        }
        assert(self.grammars@.take(i as int) =~= self.grammars@);
        out
    }

    fn position(&self, name: &str) -> (r: usize)
        ensures
            r == find_language(self@.declared, name@),
    {
        let mut i: usize = 0;
        while i < self.declared.len()
            invariant
                i <= self.declared.len(),
                forall|j: int| 0 <= j < i ==> self@.declared[j].name != name@,
            decreases self.declared.len() - i,
        {
            if str_eq(self.declared[i].0.0.as_str(), name) {
                proof {
                    lemma_find_language_at(self@.declared, name@, i as int);
                }
                return i;
            }
            i = i + 1;
        }
        proof {
            lemma_find_language_at(self@.declared, name@, i as int);
        }
        i
    }

    /// Declares a language, or replaces its declaration where it stands.
    /// Answers what it replaced; refuses a nameless language and a dotted
    /// extension, leaving the table as it was.
    pub fn declare(&mut self, language: LanguageId, spec: LanguageSpec) -> (r: Result<Option<LanguageSpec>, Invalid>)
        ensures
            blank(language.0@) ==> r == Err::<Option<LanguageSpec>, Invalid>(Invalid::Nameless) && final(self)@
                == old(self)@,
            !blank(language.0@) && first_dotted(spec.extensions@) is Some ==> (r matches Err(
                Invalid::DottedExtension(e),
            ) && e@ == spec.extensions@[first_dotted(spec.extensions@)->0]@) && final(self)@ == old(self)@,
            !blank(language.0@) && first_dotted(spec.extensions@) is None ==> {
                let i = find_language(old(self)@.declared, language.0@);
                let d = Declared { name: language.0@, spec };
                &&& final(self)@.grammars == old(self)@.grammars
                &&& final(self)@.recency == without(old(self)@.recency, i).push(i)
                &&& if i < old(self)@.declared.len() {
                    r == Ok::<Option<LanguageSpec>, Invalid>(Some(old(self)@.declared[i].spec))
                        && final(self)@.declared == old(self)@.declared.update(i, d)
                } else {
                    r == Ok::<Option<LanguageSpec>, Invalid>(None) && final(self)@.declared == old(
                        self,
                    )@.declared.push(d)
                }
            },
    {
        let name = chars_of(language.0.as_str());
        if is_blank(&name) {
            return Err(Invalid::Nameless);
        }
        match find_dotted(&spec.extensions) {
            Some(i) => {
                return Err(Invalid::DottedExtension(spec.extensions[i].clone()));
            },
            None => {},
        }
        let i = self.position(language.0.as_str());
        proof {
            lemma_find_language(self@.declared, language.0@);
        }
        let ghost d = Declared { name: language.0@, spec };
        let ghost rv0 = old(self)@.recency;
        let mut moved: Vec<usize> = Vec::new();
        let mut j: usize = 0;
        assert(moved@.map_values(|x: usize| x as int) =~= without(rv0.take(0), i as int));
        while j < self.recency.len()
            invariant
                j <= self.recency@.len(),
                rv0 == self.recency@.map_values(|x: usize| x as int),
                moved@.map_values(|x: usize| x as int) == without(rv0.take(j as int), i as int),
            decreases self.recency.len() - j,
        {
            assert(rv0.take(j + 1).drop_last() =~= rv0.take(j as int));
            let ghost before = moved@;
            if self.recency[j] != i {
                moved.push(self.recency[j]);
                assert(moved@.map_values(|x: usize| x as int) =~= before.map_values(|x: usize| x as int).push(
                    self.recency@[j as int] as int,
                ));
            }
            j = j + 1;
        }
        assert(rv0.take(j as int) =~= rv0);
        let ghost before = moved@;
        moved.push(i);
        assert(moved@.map_values(|x: usize| x as int) =~= before.map_values(|x: usize| x as int).push(i as int));
        self.recency = moved;
        if i < self.declared.len() {
            let old_entry = self.declared.remove(i);
            self.declared.insert(i, (language, spec));
            assert(self@.declared =~= old(self)@.declared.update(i as int, d));
            Ok(Some(old_entry.1))
        } else {
            self.declared.push((language, spec));
            assert(self@.declared =~= old(self)@.declared.push(d));
            Ok(None)
        }
    }

    /// A language's declaration.
    pub fn get(&self, language: &LanguageId) -> (r: Option<&LanguageSpec>)
        ensures
            ({
                let i = find_language(self@.declared, language.0@);
                if i < self@.declared.len() {
                    r == Some(&self@.declared[i].spec)
                } else {
                    r is None
                }
            }),
    {
        let i = self.position(language.0.as_str());
        proof {
            lemma_find_language(self@.declared, language.0@);
        }
        if i < self.declared.len() {
            Some(&self.declared[i].1)
        } else {
            None
        }
    }

    /// First class if its grammar is one this build has; second tier
    /// otherwise, including when it is not declared.
    pub fn tier(&self, language: &LanguageId) -> (r: Tier)
        ensures
            r == spec_tier(self@, language.0@),
    {
        let i = self.position(language.0.as_str());
        proof {
            lemma_find_language(self@.declared, language.0@);
        }
        if i >= self.declared.len() {
            return Tier::SecondTier;
        }
        assert(self@.declared[i as int].spec == self.declared@[i as int].1);
        match &self.declared[i].1.grammar {
            None => Tier::SecondTier,
            Some(g) => {
                let mut k: usize = 0;
                while k < self.grammars.len()
                    invariant
                        k <= self.grammars.len(),
                        i < self@.declared.len(),
                        find_language(self@.declared, language.0@) == i,
                        self@.declared[i as int].spec.grammar == Some(*g),
                        forall|j: int| 0 <= j < k ==> self@.grammars[j] != g@,
                    decreases self.grammars.len() - k,
                {
                    if str_eq(self.grammars[k].as_str(), g.as_str()) {
                        assert(self@.grammars[k as int] == g@);
                        assert(self@.grammars.contains(g@));
                        return Tier::FirstClass;
                    }
                    k = k + 1;
                }
                Tier::SecondTier
            },
        }
    }

    /// The language a file extension belongs to: the most recently declared
    /// one that claims it, in whatever ASCII case.
    pub fn by_extension(&self, extension: &str) -> (r: Option<&LanguageId>)
        ensures
            match last_claiming(self@.declared, self@.recency, extension@) {
                Some(i) => r matches Some(id) && id.0@ == self@.declared[i].name,
                None => r is None,
            },
    {
        let ghost rv = self@.recency;
        let mut j: usize = self.recency.len();
        assert(rv.take(j as int) =~= rv);
        while j > 0
            invariant
                j <= self.recency.len(),
                rv == self@.recency,
                last_claiming(self@.declared, rv, extension@) == last_claiming(self@.declared, rv.take(j as int), extension@),
            decreases j,
        {
            let ghost t = rv.take(j as int);
            assert(t.drop_last() =~= rv.take(j - 1));
            assert(t.last() == self.recency@[j - 1] as int);
            let at = self.recency[j - 1];
            if at < self.declared.len() {
                let exts = &self.declared[at].1.extensions;
                assert(self@.declared[at as int].spec == self.declared@[at as int].1);
                let mut k: usize = 0;
                while k < exts.len()
                    invariant
                        at < self.declared.len(),
                        0 < j <= self.recency.len(),
                        rv == self@.recency,
                        last_claiming(self@.declared, rv, extension@) == last_claiming(self@.declared, rv.take(j as int), extension@),
                        rv.take(j as int).last() == at as int,
                        rv.take(j as int).len() == j,
                        *exts == self.declared@[at as int].1.extensions,
                        self@.declared[at as int].spec == self.declared@[at as int].1,
                        k <= exts.len(),
                        forall|m: int| 0 <= m < k ==> !spec_eq_ignore_ascii_case(#[trigger] exts@[m]@, extension@),
                    decreases exts.len() - k,
                {
                    if eq_ignore_ascii_case(exts[k].as_str(), extension) {
                        assert(spec_eq_ignore_ascii_case(exts@[k as int]@, extension@));
                        assert(claims(self@.declared[at as int], extension@));
                        assert(self@.declared[at as int].name == self.declared@[at as int].0.0@);
                        return Some(&self.declared[at].0);
                    }
                    k = k + 1;
                }
                assert(!claims(self@.declared[at as int], extension@));
            }
            j = j - 1;
        }
        proof {
            assert(rv.take(0) =~= Seq::<int>::empty());
        }
        None
    }

    /// The language of a path, by its extension.
    pub fn by_path(&self, path: &str) -> (r: Option<&LanguageId>)
        ensures
            match spec_extension(path@) {
                Some(ext) => match last_claiming(self@.declared, self@.recency, ext) {
                    Some(i) => r matches Some(id) && id.0@ == self@.declared[i].name,
                    None => r is None,
                },
                None => r is None,
            },
    {
        match extension(path) {
            Some(ext) => self.by_extension(ext.as_str()),
            None => None,
        }
    }

    /// A language's line-comment prefix, if it is declared with one.
    pub fn comment_prefix(&self, language: &LanguageId) -> (r: Option<&str>)
        ensures
            ({
                let i = find_language(self@.declared, language.0@);
                if i < self@.declared.len() && self@.declared[i].spec.comment_prefix is Some {
                    r matches Some(p) && p@ == self@.declared[i].spec.comment_prefix->0@
                } else {
                    r is None
                }
            }),
    {
        match self.get(language) {
            Some(spec) => match &spec.comment_prefix {
                Some(p) => Some(p.as_str()),
                None => None,
            },
            None => None,
        }
    }

    /// Every declaration, in declaration order.
    pub fn iter(&self) -> (r: Vec<(&LanguageId, &LanguageSpec)>)
        ensures
            r@.len() == self@.declared.len(),
            forall|i: int|
                0 <= i < r@.len() ==> (#[trigger] r@[i]).0.0@ == self@.declared[i].name && *r@[i].1
                    == self@.declared[i].spec,
    {
        let mut out: Vec<(&LanguageId, &LanguageSpec)> = Vec::new();
        let mut i: usize = 0;
        while i < self.declared.len()
            invariant
                i <= self.declared.len(),
                out@.len() == i,
                forall|j: int|
                    0 <= j < i ==> (#[trigger] out@[j]).0.0@ == self@.declared[j].name && *out@[j].1
                        == self@.declared[j].spec,
            decreases self.declared.len() - i,
        {
            let e = &self.declared[i];
            out.push((&e.0, &e.1));
            i = i + 1;
        }
        out
    }

    /// How many languages are declared.
    pub fn len(&self) -> (r: usize)
        ensures
            r == self@.declared.len(),
    {
        self.declared.len()
    }

    /// Whether nothing is declared.
    pub fn is_empty(&self) -> (r: bool)
        ensures
            r == (self@.declared.len() == 0),
    {
        self.declared.len() == 0
    }

    /// The `languages` query's rows: one flat record per declaration, or
    /// only `only`'s: its name, its tier, then its declared fields.
    pub fn answer(&self, only: Option<&LanguageId>) -> (r: Vec<Value>)
        ensures
            values_view(r@) == spec_answer(self@, self@.declared, match only {
                Some(id) => Some(id.0@),
                None => None,
            }),
    {
        let ghost want = match only {
            Some(id) => Some(id.0@),
            None => None::<Seq<char>>,
        };
        let mut out: Vec<Value> = Vec::new();
        assert(values_view(out@) =~= Seq::<ValueV>::empty());
        let mut i: usize = 0;
        while i < self.declared.len()
            invariant
                i <= self.declared.len(),
                want == (match only {
                    Some(id) => Some(id.0@),
                    None => None::<Seq<char>>,
                }),
                values_view(out@) == spec_answer(self@, self@.declared.take(i as int), want),
            decreases self.declared.len() - i,
        {
            let e = &self.declared[i];
            proof {
                assert(self@.declared.take(i + 1).drop_last() =~= self@.declared.take(i as int));
                assert(self@.declared.take(i + 1).last() == (Declared { name: e.0.0@, spec: e.1 }));
            }
            let wanted = match only {
                Some(id) => str_eq(id.0.as_str(), e.0.0.as_str()),
                None => true,
            };
            if wanted {
                let ghost before = out@;
                out.push(self.row(&e.0, &e.1));
                assert(values_view(out@) =~= values_view(before).push(value_view(out@.last())));
            }
            i = i + 1;
        }
        proof {
            assert(self@.declared.take(i as int) =~= self@.declared);
        }
        out
    }

    fn row(&self, name: &LanguageId, spec: &LanguageSpec) -> (r: Value)
        ensures
            value_view(r) == spec_language_row(self@, Declared { name: name.0@, spec: *spec }),
    {
        let tier = match self.tier(name) {
            Tier::FirstClass => "first-class",
            Tier::SecondTier => "second-tier",
        };
        let mut args = Args::new();
        let ghost a0 = args@;
        let language = Value::Text(name.0.clone());
        let tier_value = Value::Text(String::from_str(tier));
        let extensions = text_list(&spec.extensions);
        let grammar = optional_text(&spec.grammar);
        let lsp_command = text_list(&spec.lsp_command);
        let comment_prefix = optional_text(&spec.comment_prefix);
        proof {
            lemma_value_view(language);
            lemma_value_view(tier_value);
            lemma_record_view_with_fields(a0, seq![
                ("language"@, language),
                ("tier"@, tier_value),
                ("extensions"@, extensions),
                ("grammar"@, grammar),
                ("lsp_command"@, lsp_command),
                ("comment_prefix"@, comment_prefix),
            ]);
        }
        args.set("language", language);
        args.set("tier", tier_value);
        args.set("extensions", extensions);
        args.set("grammar", grammar);
        args.set("lsp_command", lsp_command);
        args.set("comment_prefix", comment_prefix);
        let r = Value::Record(args);
        proof {
            lemma_value_view(r);
            let fs = seq![
                ("language"@, language),
                ("tier"@, tier_value),
                ("extensions"@, extensions),
                ("grammar"@, grammar),
                ("lsp_command"@, lsp_command),
                ("comment_prefix"@, comment_prefix),
            ];
            assert(with_fields(a0, fs) == args@) by {
                reveal_with_fuel(with_fields, 7);
            }
            assert(record_view(fs) =~= seq![
                ("language"@, ValueV::Text(name.0@)),
                ("tier"@, ValueV::Text(tier@)),
                ("extensions"@, value_view(extensions)),
                ("grammar"@, value_view(grammar)),
                ("lsp_command"@, value_view(lsp_command)),
                ("comment_prefix"@, value_view(comment_prefix)),
            ]);
            assert(record_view(a0) =~= Seq::<(Seq<char>, ValueV)>::empty());
        }
        r
    }
}

/// A language's row in the `languages` answer.
pub open spec fn spec_language_row(l: LanguagesView, d: Declared) -> ValueV {
    ValueV::Record(
        with_fields(
            Seq::empty(),
            seq![
                ("language"@, ValueV::Text(d.name)),
                ("tier"@, ValueV::Text(if spec_tier(l, d.name) is FirstClass { "first-class"@ } else { "second-tier"@ })),
                ("extensions"@, ValueV::List(texts_view(d.spec.extensions@))),
                ("grammar"@, optional_text_view(d.spec.grammar)),
                ("lsp_command"@, ValueV::List(texts_view(d.spec.lsp_command@))),
                ("comment_prefix"@, optional_text_view(d.spec.comment_prefix)),
            ],
        ),
    )
}

/// The rows for the declarations `ds`: every one, or only those named `only`.
pub open spec fn spec_answer(l: LanguagesView, ds: Seq<Declared>, only: Option<Seq<char>>) -> Seq<ValueV>
    decreases ds.len(),
{
    if ds.len() == 0 {
        Seq::empty()
    } else {
        let rest = spec_answer(l, ds.drop_last(), only);
        let d = ds.last();
        if only is None || only == Some(d.name) {
            rest.push(spec_language_row(l, d))
        } else {
            rest
        }
    }
}

/// Some text as text values.
pub open spec fn texts_view(items: Seq<String>) -> Seq<ValueV> {
    items.map_values(|t: String| ValueV::Text(t@))
}

/// Absent text as null.
pub open spec fn optional_text_view(item: Option<String>) -> ValueV {
    match item {
        Some(t) => ValueV::Text(t@),
        None => ValueV::Null,
    }
}

fn text_list(items: &Vec<String>) -> (r: Value)
    ensures
        value_view(r) == ValueV::List(texts_view(items@)),
{
    let mut out: Vec<Value> = Vec::new();
    let mut i: usize = 0;
    assert(values_view(out@) =~= texts_view(items@.take(0)));
    while i < items.len()
        invariant
            i <= items.len(),
            values_view(out@) == texts_view(items@.take(i as int)),
        decreases items.len() - i,
    {
        let v = Value::Text(items[i].clone());
        proof {
            lemma_value_view(v);
        }
        let ghost before = out@;
        out.push(v);
        assert(values_view(out@) =~= values_view(before).push(value_view(v)));
        assert(items@.take(i + 1).drop_last() =~= items@.take(i as int));
        assert(texts_view(items@.take(i + 1)) =~= texts_view(items@.take(i as int)).push(ValueV::Text(items@[i as int]@)));
        i = i + 1;
    }
    assert(items@.take(i as int) =~= items@);
    let r = Value::List(out);
    proof {
        lemma_value_view(r);
    }
    r
}

fn optional_text(item: &Option<String>) -> (r: Value)
    ensures
        value_view(r) == optional_text_view(*item),
{
    let r = match item {
        Some(t) => Value::Text(t.clone()),
        None => Value::Null,
    };
    proof {
        lemma_value_view(r);
    }
    r
}

proof fn lemma_last_dot(s: Seq<char>)
    ensures
        last_dot(s) matches Some(d) ==> 0 <= d < s.len(),
    decreases s.len(),
{
    if s.len() > 0 && s.last() != '.' {
        lemma_last_dot(s.drop_last());
    }
}

/// Where `path`'s last component starts and ends.
fn component_bounds(chars: &Vec<char>) -> (r: (usize, usize))
    ensures
        r.0 <= r.1 <= chars@.len(),
        r.1 == strip_end(chars@),
        r.0 == component_start(chars@.take(r.1 as int)),
{
    let mut end = chars.len();
    assert(chars@.take(end as int) =~= chars@);
    while end > 0 && chars[end - 1] == '/'
        invariant
            end <= chars.len(),
            strip_end(chars@) == strip_end(chars@.take(end as int)),
        decreases end,
    {
        assert(chars@.take(end as int).drop_last() =~= chars@.take(end - 1));
        end = end - 1;
    }
    let ghost t = chars@.take(end as int);
    assert(strip_end(t) == end);
    let mut start = end;
    assert(t.take(start as int) =~= t);
    while start > 0 && chars[start - 1] != '/'
        invariant
            start <= end <= chars.len(),
            t == chars@.take(end as int),
            component_start(t) == component_start(t.take(start as int)),
        decreases start,
    {
        assert(t.take(start as int).drop_last() =~= t.take(start - 1));
        start = start - 1;
    }
    assert(component_start(t.take(start as int)) == start);
    (start, end)
}

/// Where the last `.` of `chars[start..end]` is, counted from `start`.
fn last_dot_in(chars: &Vec<char>, start: usize, end: usize) -> (r: Option<usize>)
    requires
        start <= end <= chars@.len(),
    ensures
        match last_dot(chars@.subrange(start as int, end as int)) {
            Some(d) => r == Some(d as usize),
            None => r is None,
        },
        r matches Some(x) ==> x < end - start,
{
    let ghost name = chars@.subrange(start as int, end as int);
    let mut d = end;
    assert(name.take(end - start) =~= name);
    while d > start && chars[d - 1] != '.'
        invariant
            start <= d <= end,
            end <= chars.len(),
            name == chars@.subrange(start as int, end as int),
            last_dot(name) == last_dot(name.take(d - start)),
        decreases d,
    {
        assert(name.take(d - start).drop_last() =~= name.take(d - start - 1));
        d = d - 1;
    }
    if d == start {
        assert(name.take(0) =~= Seq::<char>::empty());
        return None;
    }
    assert(name.take(d - start).last() == '.');
    Some(d - 1 - start)
}

/// The extension `path` ends in, as [`spec_extension`] reads it.
fn extension(path: &str) -> (r: Option<String>)
    ensures
        match spec_extension(path@) {
            Some(e) => r matches Some(s) && s@ == e,
            None => r is None,
        },
{
    let chars = chars_of(path);
    assert(chars@ == path@);
    let (start, end) = component_bounds(&chars);
    let ghost name = path@.subrange(start as int, end as int);
    assert(name == last_component(path@));
    let len = end - start;
    proof {
        reveal_strlit(".");
        reveal_strlit("..");
    }
    if (len == 1 && chars[start] == '.') || (len == 2 && chars[start] == '.' && chars[start + 1] == '.') {
        if len == 1 {
            assert(name =~= "."@);
        } else {
            assert(name =~= ".."@);
        }
        return None;
    }
    assert(name != "."@) by {
        if name == "."@ {
            assert(name[0] == chars@[start as int]);
        }
    }
    assert(name != ".."@) by {
        if name == ".."@ {
            assert(name[0] == chars@[start as int]);
            assert(name[1] == chars@[start + 1]);
        }
    }
    assert(!(name == "."@ || name == ".."@));
    proof {
        lemma_last_dot(name);
    }
    match last_dot_in(&chars, start, end) {
        None => {
            assert(last_dot(name) is None);
            assert(spec_extension(path@) is None);
            None
        },
        Some(d) => {
            assert(last_dot(name) == Some(d as int));
            if d == 0 {
                assert(spec_extension(path@) is None);
                return None;
            }
            let mut out = String::new();
            let mut k = start + d + 1;
            while k < end
                invariant
                    start + d + 1 <= k <= end,
                    end <= chars.len(),
                    chars@ == path@,
                    out@ == path@.subrange(start + d + 1, k as int),
                decreases end - k,
            {
                push_char(&mut out, chars[k]);
                k = k + 1;
                assert(out@ =~= path@.subrange(start + d + 1, k as int));
            }
            assert(out@ =~= name.skip(d + 1));
            Some(out)
        },
    }
}

} // verus!
