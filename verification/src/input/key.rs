//! One keystroke, and the vim notation it is spelled in.
//!
//! [`Key::notation`] and [`parse`] are inverses for every key this module can
//! spell ([`spellable`]); [`lemma_notation_round_trips`] proves it.
//!
//! A shifted chord can arrive in two shapes — the shifted character with no
//! shift bit, or the base letter with one — and [`Key::new`] folds the first
//! into the second: a capital under a command modifier is shift plus the base
//! letter, and a lone shift on a character is dropped because the character
//! already carries it.

use vstd::prelude::*;

use crate::request::KeySeq;
use crate::text_util::{ascii_lower, chars_of, decimal_chars, spec_decimal, is_ascii_upper, spec_ascii_lower, spec_is_ascii_upper, string_of};

verus! {

/// A key that is not a character, spelled lowercase inside angle brackets.
#[derive(Debug, Clone, Copy, PartialEq, Eq, PartialOrd, Ord, Hash, Structural)]
pub enum Named {
    /// `<esc>`.
    Esc,
    /// `<cr>` — return.
    Enter,
    /// `<tab>`.
    Tab,
    /// `<bs>` — backspace.
    Backspace,
    /// `<del>` — forward delete.
    Delete,
    /// `<ins>`.
    Insert,
    /// `<left>`.
    Left,
    /// `<right>`.
    Right,
    /// `<up>`.
    Up,
    /// `<down>`.
    Down,
    /// `<home>`.
    Home,
    /// `<end>`.
    End,
    /// `<pageup>`.
    PageUp,
    /// `<pagedown>`.
    PageDown,
    /// `<f1>` … `<f12>`.
    Function(u8),
}

/// The bracketed word of a named key; [`None`] for a function key, which is
/// spelled from its number.
pub open spec fn spec_word(named: Named) -> Option<Seq<char>> {
    match named {
        Named::Esc => Some(seq!['e', 's', 'c']),
        Named::Enter => Some(seq!['c', 'r']),
        Named::Tab => Some(seq!['t', 'a', 'b']),
        Named::Backspace => Some(seq!['b', 's']),
        Named::Delete => Some(seq!['d', 'e', 'l']),
        Named::Insert => Some(seq!['i', 'n', 's']),
        Named::Left => Some(seq!['l', 'e', 'f', 't']),
        Named::Right => Some(seq!['r', 'i', 'g', 'h', 't']),
        Named::Up => Some(seq!['u', 'p']),
        Named::Down => Some(seq!['d', 'o', 'w', 'n']),
        Named::Home => Some(seq!['h', 'o', 'm', 'e']),
        Named::End => Some(seq!['e', 'n', 'd']),
        Named::PageUp => Some(seq!['p', 'a', 'g', 'e', 'u', 'p']),
        Named::PageDown => Some(seq!['p', 'a', 'g', 'e', 'd', 'o', 'w', 'n']),
        Named::Function(_) => None,
    }
}

/// The numeric value of a run of decimal digits.
pub open spec fn digits_value(d: Seq<char>) -> nat
    decreases d.len(),
{
    if d.len() == 0 {
        0
    } else {
        digits_value(d.drop_last()) * 10 + ((d.last() as u32) - ('0' as u32)) as nat
    }
}

/// Whether every character of `d` is a decimal digit.
pub open spec fn all_digits(d: Seq<char>) -> bool {
    forall|i: int| 0 <= i < d.len() ==> '0' <= #[trigger] d[i] <= '9'
}

/// A `u8` read the way the standard library reads one: an optional `+`, then
/// one or more decimal digits whose value fits.
pub open spec fn spec_parse_u8(s: Seq<char>) -> Option<u8> {
    let d = if s.len() > 0 && s[0] == '+' { s.drop_first() } else { s };
    if d.len() > 0 && all_digits(d) && digits_value(d) <= 255 {
        Some(digits_value(d) as u8)
    } else {
        None
    }
}

/// The named key a bracketed word spells, if any.
pub open spec fn spec_from_word(w: Seq<char>) -> Option<Named> {
    if w == seq!['e', 's', 'c'] || w == seq!['e', 's', 'c', 'a', 'p', 'e'] {
        Some(Named::Esc)
    } else if w == seq!['c', 'r'] || w == seq!['e', 'n', 't', 'e', 'r'] || w == seq!['r', 'e', 't', 'u', 'r', 'n'] {
        Some(Named::Enter)
    } else if w == seq!['t', 'a', 'b'] {
        Some(Named::Tab)
    } else if w == seq!['b', 's'] || w == seq!['b', 'a', 'c', 'k', 's', 'p', 'a', 'c', 'e'] {
        Some(Named::Backspace)
    } else if w == seq!['d', 'e', 'l'] || w == seq!['d', 'e', 'l', 'e', 't', 'e'] {
        Some(Named::Delete)
    } else if w == seq!['i', 'n', 's'] || w == seq!['i', 'n', 's', 'e', 'r', 't'] {
        Some(Named::Insert)
    } else if w == seq!['l', 'e', 'f', 't'] {
        Some(Named::Left)
    } else if w == seq!['r', 'i', 'g', 'h', 't'] {
        Some(Named::Right)
    } else if w == seq!['u', 'p'] {
        Some(Named::Up)
    } else if w == seq!['d', 'o', 'w', 'n'] {
        Some(Named::Down)
    } else if w == seq!['h', 'o', 'm', 'e'] {
        Some(Named::Home)
    } else if w == seq!['e', 'n', 'd'] {
        Some(Named::End)
    } else if w == seq!['p', 'a', 'g', 'e', 'u', 'p'] {
        Some(Named::PageUp)
    } else if w == seq!['p', 'a', 'g', 'e', 'd', 'o', 'w', 'n'] {
        Some(Named::PageDown)
    } else if w.len() > 0 && w[0] == 'f' {
        match spec_parse_u8(w.drop_first()) {
            Some(n) => if 1 <= n <= 12 { Some(Named::Function(n)) } else { None },
            None => None,
        }
    } else {
        None
    }
}

fn lit(s: &str) -> (r: Vec<char>)
    ensures
        r@ == s@,
{
    chars_of(s)
}

fn seq_is(w: &Vec<char>, s: &str) -> (r: bool)
    ensures
        r == (w@ == s@),
{
    let l = lit(s);
    if l.len() != w.len() {
        return false;
    }
    let mut i: usize = 0;
    while i < w.len()
        invariant
            l@ == s@,
            l.len() == w.len(),
            i <= w.len(),
            forall|j: int| 0 <= j < i ==> w@[j] == l@[j],
        decreases w.len() - i,
    {
        if w[i] != l[i] {
            return false;
        }
        i = i + 1;
    }
    assert(w@ =~= l@);
    true
}

/// Reads an optional `+` and decimal digits as a `u8`, as the standard
/// library does.
pub fn parse_u8(s: &Vec<char>) -> (r: Option<u8>)
    ensures
        r == spec_parse_u8(s@),
{
    let start: usize = if s.len() > 0 && s[0] == '+' { 1 } else { 0 };
    let ghost d = if s@.len() > 0 && s@[0] == '+' { s@.drop_first() } else { s@ };
    assert(d =~= s@.skip(start as int));
    if start >= s.len() {
        return None;
    }
    let mut value: u32 = 0;
    let mut big = false;
    let mut i: usize = start;
    while i < s.len()
        invariant
            start <= i <= s.len(),
            d == s@.skip(start as int),
            d == (if s@.len() > 0 && s@[0] == '+' { s@.drop_first() } else { s@ }),
            all_digits(d.take(i - start)),
            !big ==> value == digits_value(d.take(i - start)) && value <= 255,
            big ==> digits_value(d.take(i - start)) > 255,
        decreases s.len() - i,
    {
        let c = s[i];
        if c < '0' || c > '9' {
            assert(d[i - start] == c);
            assert(!('0' <= d[i - start] <= '9'));
            assert(!all_digits(d));
            return None;
        }
        let digit = (c as u32) - ('0' as u32);
        proof {
            let k = (i - start) as int;
            assert(d.take(k + 1).drop_last() =~= d.take(k));
            assert(d.take(k + 1).last() == c);
            assert(digits_value(d.take(k + 1)) == digits_value(d.take(k)) * 10 + digit);
        }
        if !big {
            let next = value * 10 + digit;
            if next > 255 {
                big = true;
            } else {
                value = next;
            }
        }
        i = i + 1;
        assert(all_digits(d.take(i - start))) by {
            assert forall|j: int| 0 <= j < d.take(i - start).len() implies
                '0' <= #[trigger] d.take(i - start)[j] <= '9' by {
                if j < (i - start) - 1 {
                    assert(d.take(i - start)[j] == d.take(i - start - 1)[j]);
                }
            }
        }
    }
    assert(d.take(i - start) =~= d);
    if big {
        None
    } else {
        Some(value as u8)
    }
}

impl Named {
    /// The name between the brackets, without the modifiers; [`None`] for a
    /// function key.
    pub fn word(self) -> (r: Option<&'static str>)
        ensures
            match r {
                Some(s) => spec_word(self) == Some(s@),
                None => spec_word(self) is None,
            },
    {
        match self {
            Named::Esc => {
                proof { reveal_strlit("esc"); }
                Some("esc")
            },
            Named::Enter => {
                proof { reveal_strlit("cr"); }
                Some("cr")
            },
            Named::Tab => {
                proof { reveal_strlit("tab"); }
                Some("tab")
            },
            Named::Backspace => {
                proof { reveal_strlit("bs"); }
                Some("bs")
            },
            Named::Delete => {
                proof { reveal_strlit("del"); }
                Some("del")
            },
            Named::Insert => {
                proof { reveal_strlit("ins"); }
                Some("ins")
            },
            Named::Left => {
                proof { reveal_strlit("left"); }
                Some("left")
            },
            Named::Right => {
                proof { reveal_strlit("right"); }
                Some("right")
            },
            Named::Up => {
                proof { reveal_strlit("up"); }
                Some("up")
            },
            Named::Down => {
                proof { reveal_strlit("down"); }
                Some("down")
            },
            Named::Home => {
                proof { reveal_strlit("home"); }
                Some("home")
            },
            Named::End => {
                proof { reveal_strlit("end"); }
                Some("end")
            },
            Named::PageUp => {
                proof { reveal_strlit("pageup"); }
                Some("pageup")
            },
            Named::PageDown => {
                proof { reveal_strlit("pagedown"); }
                Some("pagedown")
            },
            Named::Function(_) => None,
        }
    }

    /// The key a bracketed word names, if any.
    pub fn from_word(word: &str) -> (r: Option<Named>)
        ensures
            r == spec_from_word(word@),
    {
        let w = chars_of(word);
        Self::from_chars(&w)
    }

    fn from_chars(w: &Vec<char>) -> (r: Option<Named>)
        ensures
            r == spec_from_word(w@),
    {
        proof {
            reveal_strlit("esc");
            reveal_strlit("escape");
            reveal_strlit("cr");
            reveal_strlit("enter");
            reveal_strlit("return");
            reveal_strlit("tab");
            reveal_strlit("bs");
            reveal_strlit("backspace");
            reveal_strlit("del");
            reveal_strlit("delete");
            reveal_strlit("ins");
            reveal_strlit("insert");
            reveal_strlit("left");
            reveal_strlit("right");
            reveal_strlit("up");
            reveal_strlit("down");
            reveal_strlit("home");
            reveal_strlit("end");
            reveal_strlit("pageup");
            reveal_strlit("pagedown");
            assert("esc"@ =~= seq!['e', 's', 'c']);
            assert("escape"@ =~= seq!['e', 's', 'c', 'a', 'p', 'e']);
            assert("cr"@ =~= seq!['c', 'r']);
            assert("enter"@ =~= seq!['e', 'n', 't', 'e', 'r']);
            assert("return"@ =~= seq!['r', 'e', 't', 'u', 'r', 'n']);
            assert("tab"@ =~= seq!['t', 'a', 'b']);
            assert("bs"@ =~= seq!['b', 's']);
            assert("backspace"@ =~= seq!['b', 'a', 'c', 'k', 's', 'p', 'a', 'c', 'e']);
            assert("del"@ =~= seq!['d', 'e', 'l']);
            assert("delete"@ =~= seq!['d', 'e', 'l', 'e', 't', 'e']);
            assert("ins"@ =~= seq!['i', 'n', 's']);
            assert("insert"@ =~= seq!['i', 'n', 's', 'e', 'r', 't']);
            assert("left"@ =~= seq!['l', 'e', 'f', 't']);
            assert("right"@ =~= seq!['r', 'i', 'g', 'h', 't']);
            assert("up"@ =~= seq!['u', 'p']);
            assert("down"@ =~= seq!['d', 'o', 'w', 'n']);
            assert("home"@ =~= seq!['h', 'o', 'm', 'e']);
            assert("end"@ =~= seq!['e', 'n', 'd']);
            assert("pageup"@ =~= seq!['p', 'a', 'g', 'e', 'u', 'p']);
            assert("pagedown"@ =~= seq!['p', 'a', 'g', 'e', 'd', 'o', 'w', 'n']);
        }
        if seq_is(w, "esc") || seq_is(w, "escape") {
            Some(Named::Esc)
        } else if seq_is(w, "cr") || seq_is(w, "enter") || seq_is(w, "return") {
            Some(Named::Enter)
        } else if seq_is(w, "tab") {
            Some(Named::Tab)
        } else if seq_is(w, "bs") || seq_is(w, "backspace") {
            Some(Named::Backspace)
        } else if seq_is(w, "del") || seq_is(w, "delete") {
            Some(Named::Delete)
        } else if seq_is(w, "ins") || seq_is(w, "insert") {
            Some(Named::Insert)
        } else if seq_is(w, "left") {
            Some(Named::Left)
        } else if seq_is(w, "right") {
            Some(Named::Right)
        } else if seq_is(w, "up") {
            Some(Named::Up)
        } else if seq_is(w, "down") {
            Some(Named::Down)
        } else if seq_is(w, "home") {
            Some(Named::Home)
        } else if seq_is(w, "end") {
            Some(Named::End)
        } else if seq_is(w, "pageup") {
            Some(Named::PageUp)
        } else if seq_is(w, "pagedown") {
            Some(Named::PageDown)
        } else if w.len() > 0 && w[0] == 'f' {
            let mut rest: Vec<char> = Vec::new();
            let mut i: usize = 1;
            while i < w.len()
                invariant
                    1 <= i <= w.len(),
                    rest@ == w@.subrange(1, i as int),
                decreases w.len() - i,
            {
                rest.push(w[i]);
                i = i + 1;
                assert(rest@ =~= w@.subrange(1, i as int));
            }
            assert(rest@ =~= w@.drop_first());
            match parse_u8(&rest) {
                Some(n) => if 1 <= n && n <= 12 {
                    Some(Named::Function(n))
                } else {
                    None
                },
                None => None,
            }
        } else {
            None
        }
    }
}

/// What was pressed, before the modifiers.
#[derive(Debug, Clone, Copy, PartialEq, Eq, PartialOrd, Ord, Hash, Structural)]
pub enum Code {
    /// A character, including the space.
    Char(char),
    /// Everything else.
    Named(Named),
}

/// The modifiers held with a key: a set of four bits.
#[derive(Debug, Clone, Copy, PartialEq, Eq, PartialOrd, Ord, Hash, Structural)]
pub struct Mods(u8);

/// Every value a set of the four modifiers can take.
pub open spec fn mods_wf(bits: u8) -> bool {
    bits < 16
}

impl Mods {
    #[verifier::type_invariant]
    spec fn wf(self) -> bool {
        mods_wf(self.0)
    }

    /// The bits, for the contracts.
    pub closed spec fn bits(self) -> u8 {
        self.0
    }

    /// The set with exactly these bits.
    pub closed spec fn from_bits(bits: u8) -> Mods {
        Mods(bits)
    }

    /// A set is its bits.
    pub proof fn lemma_from_bits(bits: u8)
        ensures
            #[trigger] Mods::from_bits(bits).bits() == bits,
    {
    }

    /// Two sets with the same bits are the same set.
    pub proof fn lemma_bits_ext(a: Mods, b: Mods)
        requires
            a.bits() == b.bits(),
        ensures
            a == b,
    {
    }

    /// The set holds control.
    pub open spec fn ctrl(self) -> bool {
        self.bits() & 1 != 0
    }

    /// The set holds alt.
    pub open spec fn alt(self) -> bool {
        self.bits() & 2 != 0
    }

    /// The set holds shift.
    pub open spec fn shift(self) -> bool {
        self.bits() & 4 != 0
    }

    /// The set holds super.
    pub open spec fn sup(self) -> bool {
        self.bits() & 8 != 0
    }

    /// No modifiers.
    pub fn none() -> (r: Self)
        ensures
            r.bits() == 0,
    {
        Mods(0)
    }

    /// `<C-…>`.
    pub fn ctrl_bit() -> (r: Self)
        ensures
            r.bits() == 1,
    {
        Mods(1)
    }

    /// `<A-…>` — alt / meta.
    pub fn alt_bit() -> (r: Self)
        ensures
            r.bits() == 2,
    {
        Mods(2)
    }

    /// `<S-…>`.
    pub fn shift_bit() -> (r: Self)
        ensures
            r.bits() == 4,
    {
        Mods(4)
    }

    /// `<D-…>` — super / command.
    pub fn super_bit() -> (r: Self)
        ensures
            r.bits() == 8,
    {
        Mods(8)
    }

    /// The union of two sets.
    pub fn with(self, other: Self) -> (r: Self)
        ensures
            r.bits() == self.bits() | other.bits(),
    {
        proof {
            use_type_invariant(self);
            use_type_invariant(other);
            let (a, b) = (self.0, other.0);
            assert(a < 16 && b < 16 ==> a | b < 16) by (bit_vector);
        }
        Mods(self.0 | other.0)
    }

    /// Whether every bit of `other` is set here.
    pub fn has(self, other: Self) -> (r: bool)
        ensures
            r == (self.bits() & other.bits() == other.bits()),
    {
        self.0 & other.0 == other.0
    }

    /// Whether nothing is held.
    pub fn is_empty(self) -> (r: bool)
        ensures
            r == (self.bits() == 0),
    {
        self.0 == 0
    }

    /// Drops a lone shift from a character key: the character carries it.
    pub fn normalised(self, code: Code) -> (r: Self)
        ensures
            r == spec_normalised(self, code),
    {
        if matches!(code, Code::Char(_)) && self.0 == 4 {
            Mods(0)
        } else {
            self
        }
    }

    /// Whether any of control, alt or super is held — a command, not text.
    pub fn commanding(self) -> (r: bool)
        ensures
            r == spec_commanding(self),
    {
        self.0 & 11 != 0
    }
}

/// The bits after [`Mods::normalised`].
pub open spec fn spec_normalised(m: Mods, code: Code) -> Mods {
    if code is Char && m.bits() == 4 {
        Mods::from_bits(0)
    } else {
        m
    }
}

/// Whether control, alt or super is held.
pub open spec fn spec_commanding(m: Mods) -> bool {
    m.bits() & 11 != 0
}

/// Which keyboard encoding the keystrokes arrive in. The default assumes
/// nothing is lost.
#[derive(Debug, Clone, Copy, PartialEq, Eq, Hash, Structural)]
pub enum Protocol {
    /// The kitty keyboard protocol: every held modifier is reported.
    Kitty,
    /// The traditional encoding, where `<C-k>` and `<C-S-k>` are one byte.
    Legacy,
}

impl Protocol {
    /// The protocol an unconfigured machine assumes.
    pub fn default_protocol() -> (r: Self)
        ensures
            r == Protocol::Kitty,
    {
        Protocol::Kitty
    }
}

impl Default for Protocol {
    fn default() -> (r: Self)
        ensures
            r == Protocol::Kitty,
    {
        Protocol::Kitty
    }
}

/// One keystroke.
#[derive(Debug, Clone, Copy, PartialEq, Eq, PartialOrd, Ord, Hash, Structural)]
pub struct Key {
    /// What was pressed.
    pub code: Code,
    /// What was held with it.
    pub mods: Mods,
}

/// The key [`Key::new`] builds.
pub open spec fn spec_key_new(code: Code, mods: Mods) -> Key {
    let (c2, m2) = match code {
        Code::Char(ch) => if spec_is_ascii_upper(ch) && spec_commanding(mods) {
            (Code::Char(spec_ascii_lower(ch)), Mods::from_bits(mods.bits() | 4))
        } else {
            (code, mods)
        },
        _ => (code, mods),
    };
    Key { code: c2, mods: spec_normalised(m2, c2) }
}

/// The character a key types, if it types one.
pub open spec fn spec_typed(k: Key) -> Option<char> {
    match k.code {
        Code::Char(c) => if k.mods.bits() & 1 == 0 && k.mods.bits() & 2 == 0 && k.mods.bits() & 8 == 0 {
            Some(c)
        } else {
            None
        },
        _ => None,
    }
}

/// The modifier prefixes of a bracketed spelling, in the fixed order.
pub open spec fn spec_prefix(m: Mods) -> Seq<char> {
    (if m.ctrl() { seq!['C', '-'] } else { Seq::empty() })
        + (if m.alt() { seq!['A', '-'] } else { Seq::empty() })
        + (if m.shift() { seq!['S', '-'] } else { Seq::empty() })
        + (if m.sup() { seq!['D', '-'] } else { Seq::empty() })
}

/// What goes between the prefixes and the closing bracket.
pub open spec fn spec_bare(code: Code) -> Seq<char> {
    match code {
        Code::Char(c) => if c == ' ' { seq!['s', 'p', 'a', 'c', 'e'] } else { seq![c] },
        Code::Named(Named::Function(n)) => seq!['f'] + spec_decimal(n as nat),
        Code::Named(n) => match spec_word(n) {
            Some(w) => w,
            None => seq!['?'],
        },
    }
}

/// A key in vim notation.
pub open spec fn spec_notation(k: Key) -> Seq<char> {
    match k.code {
        Code::Char(c) => if c != ' ' && k.mods.bits() == 0 {
            seq![c]
        } else {
            seq!['<'] + spec_prefix(k.mods) + spec_bare(k.code) + seq!['>']
        },
        _ => seq!['<'] + spec_prefix(k.mods) + spec_bare(k.code) + seq!['>'],
    }
}

/// The keys this module can spell and read back: keys in the one form
/// [`Key::new`] produces, function keys `1` to `12`, and not the two
/// characters the bracket syntax itself uses where they would be ambiguous.
pub open spec fn spellable(k: Key) -> bool {
    &&& mods_wf(k.mods.bits())
    &&& k == spec_key_new(k.code, k.mods)
    &&& (k.code matches Code::Named(Named::Function(n)) ==> 1 <= n <= 12)
    &&& !(k.code == Code::Char('<') && k.mods.bits() == 0)
    &&& !(k.code == Code::Char('>') && k.mods.bits() != 0)
}

impl Key {
    /// A key with no modifiers.
    pub fn plain(code: Code) -> (r: Self)
        ensures
            r.code == code,
            r.mods.bits() == 0,
    {
        Key { code, mods: Mods::none() }
    }

    /// A character with no modifiers.
    pub fn char(character: char) -> (r: Self)
        ensures
            r.code == Code::Char(character),
            r.mods.bits() == 0,
    {
        Self::plain(Code::Char(character))
    }

    /// A named key with no modifiers.
    pub fn named(named: Named) -> (r: Self)
        ensures
            r.code == Code::Named(named),
            r.mods.bits() == 0,
    {
        Self::plain(Code::Named(named))
    }

    /// A key with modifiers, in the one spelling a keymap is written in: a
    /// capital under control, alt or super becomes shift plus the base letter,
    /// then a lone shift on a character is dropped.
    pub fn new(code: Code, mods: Mods) -> (r: Self)
        ensures
            r == spec_key_new(code, mods),
    {
        let (code, mods) = match code {
            Code::Char(character) => if is_ascii_upper(character) && mods.commanding() {
                (Code::Char(ascii_lower(character)), mods.with(Mods::shift_bit()))
            } else {
                (code, mods)
            },
            _ => (code, mods),
        };
        proof {
            lemma_mods_ext();
        }
        Key { code, mods: mods.normalised(code) }
    }

    /// The same keystroke with shift held.
    pub fn shifted(self) -> (r: Self)
        ensures
            r == spec_key_new(self.code, Mods::from_bits(self.mods.bits() | 4)),
    {
        let m = self.mods.with(Mods::shift_bit());
        proof {
            lemma_mods_ext();
        }
        Self::new(self.code, m)
    }

    /// The character this key would type, or [`None`] if it types nothing.
    pub fn typed(self) -> (r: Option<char>)
        ensures
            r == spec_typed(self),
    {
        match self.code {
            Code::Char(character) => if !self.mods.has(Mods::ctrl_bit()) && !self.mods.has(Mods::alt_bit())
                && !self.mods.has(Mods::super_bit()) {
                proof {
                    let b = self.mods.bits();
                    assert((b & 1 == 1) == (b & 1 != 0)) by (bit_vector);
                    assert((b & 2 == 2) == (b & 2 != 0)) by (bit_vector);
                    assert((b & 8 == 8) == (b & 8 != 0)) by (bit_vector);
                }
                Some(character)
            } else {
                proof {
                    let b = self.mods.bits();
                    assert((b & 1 == 1) == (b & 1 != 0)) by (bit_vector);
                    assert((b & 2 == 2) == (b & 2 != 0)) by (bit_vector);
                    assert((b & 8 == 8) == (b & 8 != 0)) by (bit_vector);
                }
                None
            },
            _ => None,
        }
    }

    /// This key in vim notation.
    pub fn notation(self) -> (r: String)
        ensures
            r@ == spec_notation(self),
    {
        let v = self.notation_chars();
        string_of(&v)
    }

    fn notation_chars(self) -> (r: Vec<char>)
        ensures
            r@ == spec_notation(self),
    {
        let mut out: Vec<char> = Vec::new();
        match self.code {
            Code::Char(c) => if c != ' ' && self.mods.is_empty() {
                out.push(c);
                assert(out@ =~= seq![c]);
                return out;
            },
            _ => {},
        }
        out.push('<');
        if self.mods.has(Mods::ctrl_bit()) {
            out.push('C');
            out.push('-');
        }
        if self.mods.has(Mods::alt_bit()) {
            out.push('A');
            out.push('-');
        }
        if self.mods.has(Mods::shift_bit()) {
            out.push('S');
            out.push('-');
        }
        if self.mods.has(Mods::super_bit()) {
            out.push('D');
            out.push('-');
        }
        proof {
            let b = self.mods.bits();
            assert((b & 1 == 1) == (b & 1 != 0)) by (bit_vector);
            assert((b & 2 == 2) == (b & 2 != 0)) by (bit_vector);
            assert((b & 4 == 4) == (b & 4 != 0)) by (bit_vector);
            assert((b & 8 == 8) == (b & 8 != 0)) by (bit_vector);
            assert(out@ =~= seq!['<'] + spec_prefix(self.mods));
        }
        let ghost before = out@;
        let bare = bare_chars(self.code);
        let mut i: usize = 0;
        while i < bare.len()
            invariant
                i <= bare.len(),
                out@ == before + bare@.take(i as int),
            decreases bare.len() - i,
        {
            out.push(bare[i]);
            i = i + 1;
            assert(out@ =~= before + bare@.take(i as int));
        }
        assert(bare@.take(i as int) =~= bare@);
        out.push('>');
        assert(out@ =~= seq!['<'] + spec_prefix(self.mods) + spec_bare(self.code) + seq!['>']);
        out
    }
}

/// Sets of modifiers with the same bits are the same set.
proof fn lemma_mods_ext()
    ensures
        forall|a: Mods, b: Mods| a.bits() == b.bits() ==> a == b,
        forall|b: u8| #[trigger] Mods::from_bits(b).bits() == b,
{
    assert forall|a: Mods, b: Mods| a.bits() == b.bits() implies a == b by {
        Mods::lemma_bits_ext(a, b);
    }
    assert forall|b: u8| #[trigger] Mods::from_bits(b).bits() == b by {
        Mods::lemma_from_bits(b);
    }
}

fn bare_chars(code: Code) -> (r: Vec<char>)
    ensures
        r@ == spec_bare(code),
{
    match code {
        Code::Char(c) => if c == ' ' {
            let r = lit("space");
            proof { reveal_strlit("space"); }
            r
        } else {
            let r = vec![c];
            assert(r@ =~= seq![c]);
            r
        },
        Code::Named(Named::Function(n)) => {
            let mut r = vec!['f'];
            let d = decimal_chars(n as u64);
            let mut i: usize = 0;
            while i < d.len()
                invariant
                    i <= d.len(),
                    r@ == seq!['f'] + d@.take(i as int),
                decreases d.len() - i,
            {
                r.push(d[i]);
                i = i + 1;
                assert(r@ =~= seq!['f'] + d@.take(i as int));
            }
            assert(d@.take(i as int) =~= d@);
            r
        },
        Code::Named(n) => match n.word() {
            Some(w) => lit(w),
            None => {
                let r = vec!['?'];
                assert(r@ =~= seq!['?']);
                r
            },
        },
    }
}

// ---------------------------------------------------------------------------
// Reading notation
// ---------------------------------------------------------------------------

/// The modifier a two-character prefix names: `C-`, `A-` or `M-`, `S-`, `D-`.
pub open spec fn prefix_bit(c: char) -> Option<u8> {
    if c == 'C' {
        Some(1u8)
    } else if c == 'A' || c == 'M' {
        Some(2u8)
    } else if c == 'S' {
        Some(4u8)
    } else if c == 'D' {
        Some(8u8)
    } else {
        None
    }
}

/// Strips the modifier prefixes off the inside of a bracket: the bits they
/// name, added to `bits`, and what is left.
pub open spec fn spec_strip(s: Seq<char>, bits: u8) -> (u8, Seq<char>)
    decreases s.len(),
{
    if s.len() >= 2 && s[1] == '-' && prefix_bit(s[0]) is Some {
        spec_strip(s.subrange(2, s.len() as int), bits | prefix_bit(s[0]).unwrap())
    } else {
        (bits, s)
    }
}

/// `s` with its ASCII capitals lowered.
pub open spec fn spec_lowered(s: Seq<char>) -> Seq<char> {
    s.map_values(|c: char| spec_ascii_lower(c))
}

/// The code the rest of a bracket names, after its prefixes.
pub open spec fn spec_code_of(rest: Seq<char>) -> Option<Code> {
    let lowered = spec_lowered(rest);
    if lowered == seq!['s', 'p', 'a', 'c', 'e'] {
        Some(Code::Char(' '))
    } else if lowered == seq!['l', 't'] {
        Some(Code::Char('<'))
    } else if lowered == seq!['g', 't'] {
        Some(Code::Char('>'))
    } else if lowered == seq!['b', 's', 'l', 'a', 's', 'h'] {
        Some(Code::Char('\\'))
    } else if rest.len() == 1 {
        Some(Code::Char(rest[0]))
    } else {
        match spec_from_word(lowered) {
            Some(n) => Some(Code::Named(n)),
            None => None,
        }
    }
}

/// The key the inside of one `<…>` spells.
pub open spec fn spec_parse_bracketed(inside: Seq<char>) -> Option<Key> {
    let (bits, rest) = spec_strip(inside, 0);
    match spec_code_of(rest) {
        Some(code) => Some(spec_key_new(code, Mods::from_bits(bits))),
        None => None,
    }
}

/// The first `>` at or after `from`.
pub open spec fn spec_close(chars: Seq<char>, from: int) -> Option<int>
    decreases chars.len() - from,
{
    if from < 0 || from >= chars.len() {
        None
    } else if chars[from] == '>' {
        Some(from)
    } else {
        spec_close(chars, from + 1)
    }
}

/// The closing `>` a spelling search finds is the first one from `from`.
pub proof fn lemma_close_bounds(chars: Seq<char>, from: int)
    requires
        0 <= from,
    ensures
        spec_close(chars, from) matches Some(j) ==> from <= j < chars.len() && chars[j] == '>'
            && forall|k: int| from <= k < j ==> chars[k] != '>',
        spec_close(chars, from) is None ==> forall|k: int| from <= k < chars.len() && 0 <= k ==> chars[k] != '>',
    decreases chars.len() - from,
{
    if from >= 0 && from < chars.len() && chars[from] != '>' {
        lemma_close_bounds(chars, from + 1);
    }
}

/// A plain key for one character.
pub open spec fn spec_char_key(c: char) -> Key {
    Key { code: Code::Char(c), mods: Mods::from_bits(0) }
}

/// The keys `chars` spells from `at` on, or [`None`] if some token spells
/// nothing: runs of spaces separate tokens, `<…>` is one key, `SPC` is the
/// leader, and anything else is one character.
pub open spec fn spec_parse_from(chars: Seq<char>, at: int) -> Option<Seq<Key>>
    decreases chars.len() - at,
{
    if at < 0 || at >= chars.len() {
        Some(Seq::empty())
    } else if chars[at] == ' ' {
        spec_parse_from(chars, at + 1)
    } else if chars[at] == '<' {
        match spec_close(chars, at) {
            None => None,
            Some(close) => {
                proof {
                    lemma_close_bounds(chars, at);
                }
                match spec_parse_bracketed(chars.subrange(at + 1, close)) {
                    None => None,
                    Some(k) => match spec_parse_from(chars, close + 1) {
                        Some(rest) => Some(seq![k] + rest),
                        None => None,
                    },
                }
            },
        }
    } else if at + 3 <= chars.len() && chars[at] == 'S' && chars[at + 1] == 'P' && chars[at + 2] == 'C' {
        match spec_parse_from(chars, at + 3) {
            Some(rest) => Some(seq![spec_char_key(' ')] + rest),
            None => None,
        }
    } else {
        match spec_parse_from(chars, at + 1) {
            Some(rest) => Some(seq![spec_char_key(chars[at])] + rest),
            None => None,
        }
    }
}

/// The one key `text` spells, if it spells exactly one.
pub open spec fn spec_parse(text: Seq<char>) -> Option<Key> {
    match spec_parse_from(text, 0) {
        Some(keys) => if keys.len() == 1 { Some(keys[0]) } else { None },
        None => None,
    }
}

/// Parses one key in vim notation, or [`None`] if it spells nothing or more
/// than one key.
pub fn parse(text: &str) -> (r: Option<Key>)
    ensures
        r == spec_parse(text@),
{
    let mut keys = parse_seq(text)?;
    if keys.len() == 1 {
        keys.pop()
    } else {
        None
    }
}

/// Parses a whole sequence — `]u`, `SPC f`, `<C-w>v`. [`None`] on an unclosed
/// bracket or an unknown bracketed word.
pub fn parse_seq(text: &str) -> (r: Option<Vec<Key>>)
    ensures
        match r {
            Some(keys) => spec_parse_from(text@, 0) == Some(keys@),
            None => spec_parse_from(text@, 0) is None,
        },
{
    let chars = chars_of(text);
    parse_chars(&chars)
}

fn parse_chars(chars: &Vec<char>) -> (r: Option<Vec<Key>>)
    ensures
        match r {
            Some(keys) => spec_parse_from(chars@, 0) == Some(keys@),
            None => spec_parse_from(chars@, 0) is None,
        },
{
    let mut keys: Vec<Key> = Vec::new();
    let mut at: usize = 0;
    while at < chars.len()
        invariant
            at <= chars.len(),
            spec_parse_from(chars@, 0) == match spec_parse_from(chars@, at as int) {
                Some(rest) => Some(keys@ + rest),
                None => None,
            },
        decreases chars.len() - at,
    {
        let c = chars[at];
        if c == ' ' {
            at = at + 1;
        } else if c == '<' {
            let close = match find_close(chars, at) {
                Some(j) => j,
                None => return None,
            };
            proof {
                lemma_close_bounds(chars@, at as int);
            }
            let mut inside: Vec<char> = Vec::new();
            let mut i: usize = at + 1;
            while i < close
                invariant
                    at + 1 <= i <= close,
                    close < chars.len(),
                    inside@ == chars@.subrange(at + 1, i as int),
                decreases close - i,
            {
                inside.push(chars[i]);
                i = i + 1;
                assert(inside@ =~= chars@.subrange(at + 1, i as int));
            }
            let key = match parse_bracketed(&inside) {
                Some(k) => k,
                None => return None,
            };
            let ghost old_keys = keys@;
            keys.push(key);
            proof {
                match spec_parse_from(chars@, close + 1) {
                    Some(rest) => assert(old_keys + (seq![key] + rest) =~= keys@ + rest),
                    None => {},
                }
            }
            at = close + 1;
        } else if chars.len() - at >= 3 && c == 'S' && chars[at + 1] == 'P' && chars[at + 2] == 'C' {
            let ghost old_keys = keys@;
            let k = Key::char(' ');
            proof {
                lemma_mods_ext();
                assert(k == spec_char_key(' '));
            }
            keys.push(k);
            proof {
                match spec_parse_from(chars@, at + 3) {
                    Some(rest) => assert(old_keys + (seq![k] + rest) =~= keys@ + rest),
                    None => {},
                }
            }
            at = at + 3;
        } else {
            let ghost old_keys = keys@;
            let k = Key::char(c);
            proof {
                lemma_mods_ext();
                assert(k == spec_char_key(c));
            }
            keys.push(k);
            proof {
                match spec_parse_from(chars@, at + 1) {
                    Some(rest) => assert(old_keys + (seq![k] + rest) =~= keys@ + rest),
                    None => {},
                }
            }
            at = at + 1;
        }
    }
    assert(keys@ + Seq::<Key>::empty() =~= keys@);
    Some(keys)
}

fn find_close(chars: &Vec<char>, from: usize) -> (r: Option<usize>)
    ensures
        match r {
            Some(j) => spec_close(chars@, from as int) == Some(j as int),
            None => spec_close(chars@, from as int) is None,
        },
{
    let mut j: usize = from;
    while j < chars.len()
        invariant
            from <= j,
            spec_close(chars@, from as int) == spec_close(chars@, j as int),
        decreases chars.len() - j,
    {
        if chars[j] == '>' {
            return Some(j);
        }
        j = j + 1;
    }
    None
}

/// The inside of a `<…>` token.
fn parse_bracketed(inside: &Vec<char>) -> (r: Option<Key>)
    ensures
        r == spec_parse_bracketed(inside@),
{
    let mut mods = Mods::none();
    let mut p: usize = 0;
    assert(inside@.skip(0) =~= inside@);
    loop
        invariant
            p <= inside.len(),
            spec_strip(inside@, 0) == spec_strip(inside@.skip(p as int), mods.bits()),
        ensures
            p <= inside.len(),
            spec_strip(inside@, 0) == (mods.bits(), inside@.skip(p as int)),
        decreases inside.len() - p,
    {
        if inside.len() - p >= 2 && inside[p + 1] == '-' {
            let first = inside[p];
            let bit = if first == 'C' {
                Some(Mods::ctrl_bit())
            } else if first == 'A' || first == 'M' {
                Some(Mods::alt_bit())
            } else if first == 'S' {
                Some(Mods::shift_bit())
            } else if first == 'D' {
                Some(Mods::super_bit())
            } else {
                None
            };
            match bit {
                Some(b) => {
                    proof {
                        let s = inside@.skip(p as int);
                        assert(s.subrange(2, s.len() as int) =~= inside@.skip(p + 2));
                    }
                    mods = mods.with(b);
                    p = p + 2;
                },
                None => break,
            }
        } else {
            break;
        }
    }
    let mut rest: Vec<char> = Vec::new();
    let mut lowered: Vec<char> = Vec::new();
    let mut i: usize = p;
    while i < inside.len()
        invariant
            p <= i <= inside.len(),
            rest@ == inside@.subrange(p as int, i as int),
            lowered@ == spec_lowered(rest@),
        decreases inside.len() - i,
    {
        rest.push(inside[i]);
        lowered.push(ascii_lower(inside[i]));
        i = i + 1;
        assert(rest@ =~= inside@.subrange(p as int, i as int));
        assert(lowered@ =~= spec_lowered(rest@));
    }
    assert(rest@ =~= inside@.skip(p as int));
    proof {
        reveal_strlit("space");
        reveal_strlit("lt");
        reveal_strlit("gt");
        reveal_strlit("bslash");
        assert("space"@ =~= seq!['s', 'p', 'a', 'c', 'e']);
        assert("lt"@ =~= seq!['l', 't']);
        assert("gt"@ =~= seq!['g', 't']);
        assert("bslash"@ =~= seq!['b', 's', 'l', 'a', 's', 'h']);
    }
    let code = if seq_is(&lowered, "space") {
        Code::Char(' ')
    } else if seq_is(&lowered, "lt") {
        Code::Char('<')
    } else if seq_is(&lowered, "gt") {
        Code::Char('>')
    } else if seq_is(&lowered, "bslash") {
        Code::Char('\\')
    } else if rest.len() == 1 {
        Code::Char(rest[0])
    } else {
        match Named::from_chars(&lowered) {
            Some(n) => Code::Named(n),
            None => return None,
        }
    };
    proof {
        lemma_mods_ext();
    }
    Some(Key::new(code, mods))
}

/// A whole key sequence as keys.
pub fn parse_key_seq(seq: &KeySeq) -> (r: Option<Vec<Key>>)
    ensures
        match r {
            Some(keys) => spec_parse_from(seq.0@, 0) == Some(keys@),
            None => spec_parse_from(seq.0@, 0) is None,
        },
{
    parse_seq(seq.0.as_str())
}

/// The notations of `keys`, one after another.
pub open spec fn spec_notation_of(keys: Seq<Key>) -> Seq<char>
    decreases keys.len(),
{
    if keys.len() == 0 {
        Seq::empty()
    } else {
        spec_notation_of(keys.drop_last()) + spec_notation(keys.last())
    }
}

/// The sequence back as one key sequence.
pub fn notation_of(keys: &[Key]) -> (r: KeySeq)
    ensures
        r.0@ == spec_notation_of(keys@),
{
    let mut out: Vec<char> = Vec::new();
    let mut i: usize = 0;
    while i < keys.len()
        invariant
            i <= keys.len(),
            out@ == spec_notation_of(keys@.take(i as int)),
        decreases keys.len() - i,
    {
        let one = keys[i].notation_chars();
        let ghost before = out@;
        let mut j: usize = 0;
        while j < one.len()
            invariant
                j <= one.len(),
                out@ == before + one@.take(j as int),
            decreases one.len() - j,
        {
            out.push(one[j]);
            j = j + 1;
            assert(out@ =~= before + one@.take(j as int));
        }
        assert(one@.take(j as int) =~= one@);
        assert(keys@.take(i + 1).drop_last() =~= keys@.take(i as int));
        i = i + 1;
    }
    assert(keys@.take(i as int) =~= keys@);
    KeySeq(string_of(&out))
}

// ---------------------------------------------------------------------------
// The round trip
// ---------------------------------------------------------------------------

proof fn lemma_decimal(n: nat)
    ensures
        spec_decimal(n).len() > 0,
        all_digits(spec_decimal(n)),
        digits_value(spec_decimal(n)) == n,
    decreases n,
{
    if n < 10 {
        let d = spec_decimal(n);
        assert(d.drop_last() =~= Seq::<char>::empty());
        let c = ((n as u32) + ('0' as u32)) as char;
        assert(c as u32 == (n as u32) + 48);
        assert(d.last() == c);
        assert(digits_value(Seq::<char>::empty()) == 0);
        assert(digits_value(d) == digits_value(d.drop_last()) * 10 + ((c as u32) - 48) as nat);
    } else {
        lemma_decimal(n / 10);
        let d = spec_decimal(n);
        assert(d.drop_last() =~= spec_decimal(n / 10));
        let c = (((n % 10) as u32) + ('0' as u32)) as char;
        assert(c as u32 == ((n % 10) as u32) + 48);
        assert(d.last() == c);
        assert(digits_value(d) == digits_value(d.drop_last()) * 10 + ((c as u32) - 48) as nat);
        assert((n / 10) * 10 + n % 10 == n) by (nonlinear_arith);
        assert forall|i: int| 0 <= i < d.len() implies '0' <= #[trigger] d[i] <= '9' by {
            if i < d.len() - 1 {
                assert(d[i] == spec_decimal(n / 10)[i]);
            }
        }
    }
}

proof fn lemma_parse_decimal(n: u8)
    ensures
        spec_parse_u8(spec_decimal(n as nat)) == Some(n),
{
    lemma_decimal(n as nat);
    let d = spec_decimal(n as nat);
    assert('0' <= d[0] <= '9');
}

proof fn lemma_strip_step(x: char, b: u8, rest: Seq<char>, bits: u8)
    requires
        prefix_bit(x) == Some(b),
    ensures
        spec_strip(seq![x, '-'] + rest, bits) == spec_strip(rest, bits | b),
{
    let s = seq![x, '-'] + rest;
    assert(s.subrange(2, s.len() as int) =~= rest);
}

proof fn lemma_bits_rebuild(m: u8)
    requires
        m < 16,
    ensures
        (if m & 8 != 0 {
            (if m & 4 != 0 {
                (if m & 2 != 0 { (if m & 1 != 0 { 0u8 | 1u8 } else { 0u8 }) | 2u8 } else { (if m & 1 != 0 { 0u8 | 1u8 } else { 0u8 }) }) | 4u8
            } else {
                (if m & 2 != 0 { (if m & 1 != 0 { 0u8 | 1u8 } else { 0u8 }) | 2u8 } else { (if m & 1 != 0 { 0u8 | 1u8 } else { 0u8 }) })
            }) | 8u8
        } else {
            (if m & 4 != 0 {
                (if m & 2 != 0 { (if m & 1 != 0 { 0u8 | 1u8 } else { 0u8 }) | 2u8 } else { (if m & 1 != 0 { 0u8 | 1u8 } else { 0u8 }) }) | 4u8
            } else {
                (if m & 2 != 0 { (if m & 1 != 0 { 0u8 | 1u8 } else { 0u8 }) | 2u8 } else { (if m & 1 != 0 { 0u8 | 1u8 } else { 0u8 }) })
            })
        }) == m,
{
    assert(m < 16 ==> (if m & 8 != 0 {
            (if m & 4 != 0 {
                (if m & 2 != 0 { (if m & 1 != 0 { 0u8 | 1u8 } else { 0u8 }) | 2u8 } else { (if m & 1 != 0 { 0u8 | 1u8 } else { 0u8 }) }) | 4u8
            } else {
                (if m & 2 != 0 { (if m & 1 != 0 { 0u8 | 1u8 } else { 0u8 }) | 2u8 } else { (if m & 1 != 0 { 0u8 | 1u8 } else { 0u8 }) })
            }) | 8u8
        } else {
            (if m & 4 != 0 {
                (if m & 2 != 0 { (if m & 1 != 0 { 0u8 | 1u8 } else { 0u8 }) | 2u8 } else { (if m & 1 != 0 { 0u8 | 1u8 } else { 0u8 }) }) | 4u8
            } else {
                (if m & 2 != 0 { (if m & 1 != 0 { 0u8 | 1u8 } else { 0u8 }) | 2u8 } else { (if m & 1 != 0 { 0u8 | 1u8 } else { 0u8 }) })
            })
        }) == m) by (bit_vector);
}

/// Whether `s` begins with something the prefix stripper would take.
pub open spec fn starts_like_prefix(s: Seq<char>) -> bool {
    s.len() >= 2 && s[1] == '-' && prefix_bit(s[0]) is Some
}

proof fn lemma_strip_prefix(m: Mods, rest: Seq<char>)
    requires
        mods_wf(m.bits()),
        !starts_like_prefix(rest),
    ensures
        spec_strip(spec_prefix(m) + rest, 0) == (m.bits(), rest),
{
    let pc: Seq<char> = if m.ctrl() { seq!['C', '-'] } else { Seq::empty() };
    let pa: Seq<char> = if m.alt() { seq!['A', '-'] } else { Seq::empty() };
    let ps: Seq<char> = if m.shift() { seq!['S', '-'] } else { Seq::empty() };
    let pd: Seq<char> = if m.sup() { seq!['D', '-'] } else { Seq::empty() };
    let s3 = pd + rest;
    let s2 = ps + s3;
    let s1 = pa + s2;
    let s0 = pc + s1;
    assert(spec_prefix(m) + rest =~= s0);
    let b = m.bits();
    let a1: u8 = if b & 1 != 0 { 0u8 | 1u8 } else { 0u8 };
    let a2: u8 = if b & 2 != 0 { a1 | 2u8 } else { a1 };
    let a3: u8 = if b & 4 != 0 { a2 | 4u8 } else { a2 };
    let a4: u8 = if b & 8 != 0 { a3 | 8u8 } else { a3 };
    if m.ctrl() {
        lemma_strip_step('C', 1, s1, 0);
    } else {
        assert(s0 =~= s1);
    }
    assert(spec_strip(s0, 0) == spec_strip(s1, a1));
    if m.alt() {
        lemma_strip_step('A', 2, s2, a1);
    } else {
        assert(s1 =~= s2);
    }
    assert(spec_strip(s1, a1) == spec_strip(s2, a2));
    if m.shift() {
        lemma_strip_step('S', 4, s3, a2);
    } else {
        assert(s2 =~= s3);
    }
    assert(spec_strip(s2, a2) == spec_strip(s3, a3));
    if m.sup() {
        lemma_strip_step('D', 8, rest, a3);
    } else {
        assert(s3 =~= rest);
    }
    assert(spec_strip(s3, a3) == spec_strip(rest, a4));
    lemma_bits_rebuild(b);
    assert(a4 == b);
}

proof fn lemma_lowered_word(w: Seq<char>)
    requires
        forall|i: int| 0 <= i < w.len() ==> !spec_is_ascii_upper(#[trigger] w[i]),
    ensures
        spec_lowered(w) == w,
{
    assert(spec_lowered(w) =~= w);
}

proof fn lemma_code_of_bare(code: Code)
    requires
        code matches Code::Named(Named::Function(n)) ==> 1 <= n <= 12,
        code matches Code::Char(c) ==> c != ' ' ==> true,
    ensures
        spec_code_of(spec_bare(code)) == Some(code),
{
    let bare = spec_bare(code);
    match code {
        Code::Char(c) => {
            if c == ' ' {
                lemma_lowered_word(bare);
            } else {
                assert(spec_lowered(bare).len() == 1);
            }
        },
        Code::Named(Named::Function(n)) => {
            lemma_decimal(n as nat);
            lemma_parse_decimal(n);
            let d = spec_decimal(n as nat);
            assert forall|i: int| 0 <= i < bare.len() implies !spec_is_ascii_upper(#[trigger] bare[i]) by {
                if i > 0 {
                    assert(bare[i] == d[i - 1]);
                }
            }
            lemma_lowered_word(bare);
            assert(bare.drop_first() =~= d);
            assert(bare[0] == 'f');
            assert(bare.len() >= 2);
        },
        Code::Named(n) => {
            let w = spec_word(n).unwrap();
            lemma_lowered_word(w);
        },
    }
}

proof fn lemma_concat_no_close(a: Seq<char>, b: Seq<char>)
    requires
        forall|i: int| 0 <= i < a.len() ==> a[i] != '>',
        forall|i: int| 0 <= i < b.len() ==> b[i] != '>',
    ensures
        forall|i: int| 0 <= i < (a + b).len() ==> (a + b)[i] != '>',
{
    assert forall|i: int| 0 <= i < (a + b).len() implies (a + b)[i] != '>' by {
        if i >= a.len() {
            assert((a + b)[i] == b[i - a.len()]);
        } else {
            assert((a + b)[i] == a[i]);
        }
    }
}

proof fn lemma_no_close_in(m: Mods, code: Code)
    requires
        code != Code::Char('>'),
    ensures
        forall|i: int| 0 <= i < (spec_prefix(m) + spec_bare(code)).len() ==> (spec_prefix(m) + spec_bare(code))[i] != '>',
{
    let p = spec_prefix(m);
    let b = spec_bare(code);
    match code {
        Code::Named(Named::Function(n)) => {
            lemma_decimal(n as nat);
            let d = spec_decimal(n as nat);
            assert forall|i: int| 0 <= i < b.len() implies b[i] != '>' by {
                if i > 0 {
                    assert(b[i] == d[i - 1]);
                }
            }
        },
        _ => {},
    }
    let pc: Seq<char> = if m.ctrl() { seq!['C', '-'] } else { Seq::empty() };
    let pa: Seq<char> = if m.alt() { seq!['A', '-'] } else { Seq::empty() };
    let ps: Seq<char> = if m.shift() { seq!['S', '-'] } else { Seq::empty() };
    let pd: Seq<char> = if m.sup() { seq!['D', '-'] } else { Seq::empty() };
    lemma_concat_no_close(pc, pa);
    lemma_concat_no_close(pc + pa, ps);
    lemma_concat_no_close(pc + pa + ps, pd);
    assert(p == pc + pa + ps + pd);
    lemma_concat_no_close(p, b);
}

/// **Notation and parsing are inverses**: every key this module can spell is
/// read back as itself.
#[verifier::spinoff_prover]
#[verifier::rlimit(60)]
pub proof fn lemma_notation_round_trips(k: Key)
    requires
        spellable(k),
    ensures
        spec_parse(spec_notation(k)) == Some(k),
{
    lemma_mods_ext();
    let n = spec_notation(k);
    if k.code is Char && k.code->Char_0 != ' ' && k.mods.bits() == 0 {
        let c = k.code->Char_0;
        assert(n == seq![c]);
        assert(spec_parse_from(n, 1) == Some(Seq::<Key>::empty()));
        assert(spec_char_key(c) == k);
        assert(seq![spec_char_key(c)] + Seq::<Key>::empty() =~= seq![k]);
    } else {
        let p = spec_prefix(k.mods);
        let b = spec_bare(k.code);
        assert(n =~= seq!['<'] + (p + b) + seq!['>']);
        assert(k.code != Code::Char('>'));
        lemma_no_close_in(k.mods, k.code);
        let inner = p + b;
        assert(n[0] == '<');
        assert forall|i: int| 1 <= i < n.len() - 1 implies n[i] != '>' by {
            assert(n[i] == inner[i - 1]);
        }
        assert(n[n.len() - 1] == '>');
        lemma_close_bounds(n, 0);
        assert(spec_close(n, 0) == Some(n.len() - 1)) by {
            if spec_close(n, 0) is None {
                assert(n[n.len() - 1] != '>');
            } else {
                let j = spec_close(n, 0).unwrap();
                if j < n.len() - 1 {
                    assert(n[n.len() - 1] == '>');
                }
            }
        }
        assert(n.subrange(1, n.len() - 1) =~= inner);
        assert(!starts_like_prefix(b)) by {
            match k.code {
                Code::Named(Named::Function(d)) => {
                    lemma_decimal(d as nat);
                    if b.len() >= 2 {
                        assert(b[1] == spec_decimal(d as nat)[0]);
                    }
                },
                _ => {},
            }
        }
        lemma_strip_prefix(k.mods, b);
        lemma_code_of_bare(k.code);
        assert(spec_parse_bracketed(inner) == Some(k));
        assert(spec_parse_from(n, n.len() as int) == Some(Seq::<Key>::empty()));
        assert(seq![k] + Seq::<Key>::empty() =~= seq![k]);
    }
}


/// A named key's word reads back as that key.
pub proof fn lemma_word_round_trip(n: Named)
    ensures
        spec_word(n) matches Some(w) ==> spec_from_word(w) == Some(n),
{
}

/// Holding shift twice is holding it once: `shifted` is idempotent on every
/// key.
pub proof fn lemma_shifted_twice(k: Key)
    requires
        mods_wf(k.mods.bits()),
    ensures
        ({
            let once = spec_key_new(k.code, Mods::from_bits(k.mods.bits() | 4));
            spec_key_new(once.code, Mods::from_bits(once.mods.bits() | 4)) == once
        }),
{
    lemma_mods_ext();
    let b = k.mods.bits();
    assert((b | 4) | 4 == b | 4) by (bit_vector);
    assert(((b | 4) | 4) & 11 == (b | 4) & 11) by (bit_vector);
    assert((b | 4) & 11 == b & 11) by (bit_vector);
    assert(b < 16 && b & 11 == 0 ==> b | 4 == 4) by (bit_vector);
    assert(4u8 & 11 == 0 && 0u8 | 4 == 4) by (bit_vector);
    assert((b | 4) != 4 ==> (b | 4) & 11 != 0 || b | 4 >= 16) by (bit_vector);
}


// ---------------------------------------------------------------------------
// Order
// ---------------------------------------------------------------------------

/// Where a named key stands among `Named`'s variants, in declaration order.
pub open spec fn named_rank(n: Named) -> int {
    match n {
        Named::Esc => 0,
        Named::Enter => 1,
        Named::Tab => 2,
        Named::Backspace => 3,
        Named::Delete => 4,
        Named::Insert => 5,
        Named::Left => 6,
        Named::Right => 7,
        Named::Up => 8,
        Named::Down => 9,
        Named::Home => 10,
        Named::End => 11,
        Named::PageUp => 12,
        Named::PageDown => 13,
        Named::Function(_) => 14,
    }
}

/// Named keys in variant order, function keys by number.
pub open spec fn named_lt(a: Named, b: Named) -> bool {
    named_rank(a) < named_rank(b) || (a matches Named::Function(x) && b matches Named::Function(y) && x < y)
}

/// Characters by code point, all before the named keys.
pub open spec fn code_lt(a: Code, b: Code) -> bool {
    match (a, b) {
        (Code::Char(x), Code::Char(y)) => (x as int) < (y as int),
        (Code::Char(_), Code::Named(_)) => true,
        (Code::Named(_), Code::Char(_)) => false,
        (Code::Named(x), Code::Named(y)) => named_lt(x, y),
    }
}

/// Keys by what was pressed, then by the modifiers' bits.
pub open spec fn key_lt(a: Key, b: Key) -> bool {
    code_lt(a.code, b.code) || (a.code == b.code && a.mods.bits() < b.mods.bits())
}

/// Key sequences in lexicographic order, a proper prefix first.
pub open spec fn keys_lt(a: Seq<Key>, b: Seq<Key>) -> bool
    decreases a.len(),
{
    if a.len() == 0 {
        b.len() > 0
    } else if b.len() == 0 {
        false
    } else if a[0] == b[0] {
        keys_lt(a.drop_first(), b.drop_first())
    } else {
        key_lt(a[0], b[0])
    }
}

/// `key_lt` is a strict total order.
pub proof fn lemma_key_order(a: Key, b: Key, c: Key)
    ensures
        !key_lt(a, a),
        key_lt(a, b) && key_lt(b, c) ==> key_lt(a, c),
        a != b ==> key_lt(a, b) || key_lt(b, a),
{
    if a.code == b.code && a.mods.bits() == b.mods.bits() {
        Mods::lemma_bits_ext(a.mods, b.mods);
    }
    match (a.code, b.code) {
        (Code::Char(x), Code::Char(y)) => {
            if x as int == y as int {
                assert(x == y);
            }
        },
        (Code::Named(x), Code::Named(y)) => {
            if named_rank(x) == named_rank(y) && !(x matches Named::Function(_)) {
                assert(x == y);
            }
        },
        _ => {},
    }
}

/// `keys_lt` is a strict total order.
pub proof fn lemma_keys_order(a: Seq<Key>, b: Seq<Key>, c: Seq<Key>)
    ensures
        !keys_lt(a, a),
        keys_lt(a, b) && keys_lt(b, c) ==> keys_lt(a, c),
        a != b ==> keys_lt(a, b) || keys_lt(b, a),
    decreases a.len(),
{
    if a.len() > 0 {
        lemma_key_order(a[0], a[0], a[0]);
        lemma_keys_order(a.drop_first(), a.drop_first(), a.drop_first());
        if b.len() > 0 && c.len() > 0 {
            lemma_key_order(a[0], b[0], c[0]);
            lemma_key_order(b[0], a[0], c[0]);
            lemma_keys_order(a.drop_first(), b.drop_first(), c.drop_first());
        } else if b.len() > 0 {
            lemma_key_order(a[0], b[0], b[0]);
            lemma_keys_order(a.drop_first(), b.drop_first(), b.drop_first());
        }
        if a != b && b.len() > 0 && a[0] == b[0] {
            assert(a =~= seq![a[0]] + a.drop_first());
            assert(b =~= seq![b[0]] + b.drop_first());
        }
    } else {
        if b.len() == 0 {
            assert(a =~= b);
        }
    }
}

impl Key {
    /// Whether this key comes before `other` in the order keys are listed in.
    pub(crate) fn precedes(&self, other: &Key) -> (r: bool)
        ensures
            r == key_lt(*self, *other),
    {
        let a = self.code;
        let b = other.code;
        let code_less = match (a, b) {
            (Code::Char(x), Code::Char(y)) => (x as u32) < (y as u32),
            (Code::Char(_), Code::Named(_)) => true,
            (Code::Named(_), Code::Char(_)) => false,
            (Code::Named(x), Code::Named(y)) => {
                let rx = named_position(x);
                let ry = named_position(y);
                rx < ry || match (x, y) {
                    (Named::Function(p), Named::Function(q)) => p < q,
                    _ => false,
                }
            },
        };
        code_less || (a == b && self.mods.0 < other.mods.0)
    }
}

/// Where a named key stands among `Named`'s variants.
fn named_position(n: Named) -> (r: u8)
    ensures
        r as int == named_rank(n),
{
    match n {
        Named::Esc => 0,
        Named::Enter => 1,
        Named::Tab => 2,
        Named::Backspace => 3,
        Named::Delete => 4,
        Named::Insert => 5,
        Named::Left => 6,
        Named::Right => 7,
        Named::Up => 8,
        Named::Down => 9,
        Named::Home => 10,
        Named::End => 11,
        Named::PageUp => 12,
        Named::PageDown => 13,
        Named::Function(_) => 14,
    }
}

/// Whether the sequence `a` comes before `b`: key by key, a proper prefix
/// first.
pub(crate) fn keys_precede(a: &[Key], b: &[Key]) -> (r: bool)
    ensures
        r == keys_lt(a@, b@),
{
    let mut i: usize = 0;
    assert(a@.skip(0) =~= a@);
    assert(b@.skip(0) =~= b@);
    while i < a.len() && i < b.len()
        invariant
            i <= a.len(),
            i <= b.len(),
            a@.take(i as int) == b@.take(i as int),
            keys_lt(a@, b@) == keys_lt(a@.skip(i as int), b@.skip(i as int)),
        decreases a.len() - i,
    {
        let x = a[i];
        let y = b[i];
        assert(a@.skip(i as int)[0] == x);
        assert(b@.skip(i as int)[0] == y);
        if x != y {
            return x.precedes(&y);
        }
        assert(a@.skip(i as int).drop_first() =~= a@.skip(i + 1));
        assert(b@.skip(i as int).drop_first() =~= b@.skip(i + 1));
        assert(a@.take(i + 1) =~= a@.take(i as int).push(x));
        assert(b@.take(i + 1) =~= b@.take(i as int).push(y));
        i = i + 1;
    }
    a.len() == i && b.len() > i
}


/// A character no bracket word stands for and no capital lowers to.
pub open spec fn spelled_as_itself(c: char) -> bool {
    c != ' ' && c != '<' && c != '>' && c != '\\' && !('a' <= c <= 'z')
}

/// What stripping prefixes leaves is the end of what it stripped.
proof fn lemma_strip_suffix(s: Seq<char>, bits: u8)
    ensures
        exists|k: int| 0 <= k <= s.len() && #[trigger] spec_strip(s, bits).1 == s.subrange(k, s.len() as int),
    decreases s.len(),
{
    if s.len() >= 2 && s[1] == '-' && prefix_bit(s[0]) is Some {
        let t = s.subrange(2, s.len() as int);
        lemma_strip_suffix(t, bits | prefix_bit(s[0]).unwrap());
        let k = choose|k: int| 0 <= k <= t.len() && #[trigger] spec_strip(t, bits | prefix_bit(s[0]).unwrap()).1 == t.subrange(k, t.len() as int);
        assert(t.subrange(k, t.len() as int) =~= s.subrange(k + 2, s.len() as int));
    } else {
        assert(s.subrange(0, s.len() as int) =~= s);
    }
}

/// A bracket that spells a plain character `c` holds it.
proof fn lemma_bracketed_char(inside: Seq<char>, c: char)
    requires
        spelled_as_itself(c),
        spec_parse_bracketed(inside) matches Some(k) && k.code == Code::Char(c),
    ensures
        inside.contains(c),
{
    let (bits, rest) = spec_strip(inside, 0);
    lemma_strip_suffix(inside, 0);
    let k = choose|k: int| 0 <= k <= inside.len() && #[trigger] spec_strip(inside, 0).1 == inside.subrange(k, inside.len() as int);
    let code = spec_code_of(rest).unwrap();
    let lowered = spec_lowered(rest);
    if lowered == seq!['s', 'p', 'a', 'c', 'e'] || lowered == seq!['l', 't'] || lowered == seq!['g', 't']
        || lowered == seq!['b', 's', 'l', 'a', 's', 'h'] {
        assert(false);
    } else if rest.len() == 1 {
        assert(code == Code::Char(rest[0]));
        if spec_is_ascii_upper(rest[0]) && spec_commanding(Mods::from_bits(bits)) {
            assert('a' <= spec_ascii_lower(rest[0]) <= 'z');
            assert(false);
        }
        assert(inside[k] == c);
    } else {
        assert(code is Named);
        assert(false);
    }
}

/// **A plain character is spelled by itself**: every key a spelling reads
/// as that is a plain character `c` (one no bracket word stands for and no
/// capital lowers to) comes from a `c` written in the spelling.
pub proof fn lemma_parsed_char_is_written(chars: Seq<char>, at: int, c: char)
    requires
        spelled_as_itself(c),
        0 <= at,
    ensures
        spec_parse_from(chars, at) matches Some(keys) ==> (forall|i: int|
            0 <= i < keys.len() && #[trigger] keys[i].code == Code::Char(c) ==> exists|j: int| at <= j < chars.len() && chars[j] == c),
    decreases chars.len() - at,
{
    if at >= chars.len() {
    } else if chars[at] == ' ' {
        lemma_parsed_char_is_written(chars, at + 1, c);
    } else if chars[at] == '<' {
        if let Some(close) = spec_close(chars, at) {
            lemma_close_bounds(chars, at);
            let inside = chars.subrange(at + 1, close);
            if let Some(k) = spec_parse_bracketed(inside) {
                lemma_parsed_char_is_written(chars, close + 1, c);
                if let Some(rest) = spec_parse_from(chars, close + 1) {
                    let keys = seq![k] + rest;
                    assert forall|i: int| 0 <= i < keys.len() && #[trigger] keys[i].code == Code::Char(c) implies exists|j: int|
                        at <= j < chars.len() && chars[j] == c by {
                        if i == 0 {
                            lemma_bracketed_char(inside, c);
                            let m = choose|m: int| 0 <= m < inside.len() && inside[m] == c;
                            assert(chars[at + 1 + m] == c);
                        } else {
                            assert(keys[i] == rest[i - 1]);
                        }
                    }
                }
            }
        }
    } else if at + 3 <= chars.len() && chars[at] == 'S' && chars[at + 1] == 'P' && chars[at + 2] == 'C' {
        lemma_parsed_char_is_written(chars, at + 3, c);
        if let Some(rest) = spec_parse_from(chars, at + 3) {
            let keys = seq![spec_char_key(' ')] + rest;
            assert forall|i: int| 0 <= i < keys.len() && #[trigger] keys[i].code == Code::Char(c) implies exists|j: int|
                at <= j < chars.len() && chars[j] == c by {
                if i > 0 {
                    assert(keys[i] == rest[i - 1]);
                }
            }
        }
    } else {
        lemma_parsed_char_is_written(chars, at + 1, c);
        if let Some(rest) = spec_parse_from(chars, at + 1) {
            let keys = seq![spec_char_key(chars[at])] + rest;
            assert forall|i: int| 0 <= i < keys.len() && #[trigger] keys[i].code == Code::Char(c) implies exists|j: int|
                at <= j < chars.len() && chars[j] == c by {
                if i > 0 {
                    assert(keys[i] == rest[i - 1]);
                }
            }
        }
    }
}


/// The words the bracketed notation takes for each named key other than the
/// function keys: the one `notation` writes, then the documented aliases.
pub open spec fn named_words(k: Named) -> Seq<Seq<char>> {
    match k {
        Named::Esc => seq![seq!['e', 's', 'c'], seq!['e', 's', 'c', 'a', 'p', 'e']],
        Named::Enter => seq![seq!['c', 'r'], seq!['e', 'n', 't', 'e', 'r'], seq!['r', 'e', 't', 'u', 'r', 'n']],
        Named::Tab => seq![seq!['t', 'a', 'b']],
        Named::Backspace => seq![seq!['b', 's'], seq!['b', 'a', 'c', 'k', 's', 'p', 'a', 'c', 'e']],
        Named::Delete => seq![seq!['d', 'e', 'l'], seq!['d', 'e', 'l', 'e', 't', 'e']],
        Named::Insert => seq![seq!['i', 'n', 's'], seq!['i', 'n', 's', 'e', 'r', 't']],
        Named::Left => seq![seq!['l', 'e', 'f', 't']],
        Named::Right => seq![seq!['r', 'i', 'g', 'h', 't']],
        Named::Up => seq![seq!['u', 'p']],
        Named::Down => seq![seq!['d', 'o', 'w', 'n']],
        Named::Home => seq![seq!['h', 'o', 'm', 'e']],
        Named::End => seq![seq!['e', 'n', 'd']],
        Named::PageUp => seq![seq!['p', 'a', 'g', 'e', 'u', 'p']],
        Named::PageDown => seq![seq!['p', 'a', 'g', 'e', 'd', 'o', 'w', 'n']],
        Named::Function(_) => Seq::empty(),
    }
}

/// A lowercase word of two or more letters that names a key reads, between
/// `<` and `>`, as that key with no modifier.
proof fn lemma_bracketed_word(w: Seq<char>, k: Named)
    requires
        2 <= w.len(),
        forall|j: int| 0 <= j < w.len() ==> 'a' <= #[trigger] w[j] <= 'z',
        spec_from_word(w) == Some(k),
        w != seq!['s', 'p', 'a', 'c', 'e'],
        w != seq!['l', 't'],
        w != seq!['g', 't'],
        w != seq!['b', 's', 'l', 'a', 's', 'h'],
    ensures
        spec_parse_from(seq!['<'] + w + seq!['>'], 0)
            == Some(seq![Key { code: Code::Named(k), mods: Mods::from_bits(0) }]),
{
    let chars = seq!['<'] + w + seq!['>'];
    let n: int = w.len() as int + 1;
    assert(chars[0] == '<');
    assert(chars[n] == '>');
    assert forall|j: int| 1 <= j < n implies chars[j] == w[j - 1] by {}
    lemma_close_bounds(chars, 0);
    assert(spec_close(chars, 0) == Some(n)) by {
        match spec_close(chars, 0) {
            Some(j) => {
                if j < n {
                    assert(chars[j] == w[j - 1]);
                }
            },
            None => {},
        }
    }
    let inside = chars.subrange(1, n);
    assert(inside =~= w);
    assert(w[1] != '-');
    assert(spec_strip(w, 0) == (0u8, w));
    assert(spec_lowered(w) =~= w);
    assert(spec_code_of(w) == Some(Code::Named(k)));
    let key = Key { code: Code::Named(k), mods: Mods::from_bits(0) };
    assert(spec_parse_bracketed(inside) == Some(key));
    assert(spec_parse_from(chars, n + 1) == Some(Seq::<Key>::empty()));
    assert(seq![key] + Seq::<Key>::empty() =~= seq![key]);
}

/// **Every word a named key is documented under reads as that key**: as a
/// bare word, and written `<word>` in a key spelling, with no modifier;
/// aliases such as `enter`, `return`, `escape`, `backspace`, `delete` and
/// `insert` as much as the words `notation` writes.
pub proof fn lemma_named_words(k: Named, i: int)
    requires
        0 <= i < named_words(k).len(),
    ensures
        spec_from_word(named_words(k)[i]) == Some(k),
        spec_parse_from(seq!['<'] + named_words(k)[i] + seq!['>'], 0)
            == Some(seq![Key { code: Code::Named(k), mods: Mods::from_bits(0) }]),
{
    let w = named_words(k)[i];
    assert(spec_from_word(w) == Some(k));
    assert(forall|j: int| 0 <= j < w.len() ==> 'a' <= #[trigger] w[j] <= 'z');
    lemma_bracketed_word(w, k);
}

} // verus!
