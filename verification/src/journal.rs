//! The on-disk story: a folded, append-only log.
//!
//! ```text
//!   append   record ──▶ [PHOSJRNL|fmt|stream][rec][rec][rec] …
//!   open     every record ──▶ fold ──▶ the state
//!   compact  the state ──▶ snapshot ──▶ a fresh log with the same fold
//! ```
//!
//! This module holds everything about that format that is a decision rather
//! than a system call: the record codec ([`Encoder`] / [`Decoder`]), the frame
//! and its checksum, the header, the scan that finds where a torn tail starts,
//! the compaction policy, the state-directory keying, and the undo schema
//! ([`undo`]). Opening, appending, syncing and renaming files are the host's.
//!
//! Two laws hold here and are proved: a decoder reads back exactly what the
//! encoder wrote ([`lemma_u64_round_trip`] and its neighbours), and a scan of
//! framed payloads finds every one of them ([`lemma_scan_frames`]).



pub mod undo;
pub mod compact;
pub mod log;

use vstd::prelude::*;

use crate::text_util::{
    decimal_chars, is_absolute, path_join, push_char, push_chars, push_decimal, push_str, str_eq, spec_decimal, spec_is_absolute,
    spec_path_join,
};

verus! {

// ---------------------------------------------------------------------------
// Codec
// ---------------------------------------------------------------------------

/// The unsigned LEB128 spelling of `v`: seven bits per byte, low bits first,
/// the high bit set on every byte but the last.
pub open spec fn spec_leb(v: nat) -> Seq<u8>
    decreases v,
{
    if v < 128 {
        seq![v as u8]
    } else {
        seq![((v % 128) + 128) as u8] + spec_leb(v / 128)
    }
}

/// `128` to the `i`.
pub open spec fn pow128(i: nat) -> nat
    decreases i,
{
    if i == 0 {
        1
    } else {
        128 * pow128((i - 1) as nat)
    }
}

/// One more than the largest `u64`.
pub open spec fn u64_limit() -> nat {
    0x1_0000_0000_0000_0000
}

/// Reading a LEB128 integer whose `i`-th byte is at `at + i`, with `acc`
/// already read and `mult` the weight of byte `i`: the value and where the
/// integer ends, or why it does not read.
pub open spec fn leb_read(bytes: Seq<u8>, at: int, i: nat, acc: nat, mult: nat) -> Result<(nat, int), DecodeError>
    decreases 10 - i,
{
    if i >= 10 {
        Err(DecodeError::Overflow)
    } else if at + i < 0 || at + i >= bytes.len() {
        Err(DecodeError::UnexpectedEnd)
    } else {
        let byte = bytes[at + i];
        let part = (byte % 128) as nat;
        if part * mult >= u64_limit() {
            Err(DecodeError::Overflow)
        } else if byte < 128 {
            Ok((acc + part * mult, at + i + 1))
        } else {
            leb_read(bytes, at, i + 1, acc + part * mult, mult * 128)
        }
    }
}

/// Reading one integer at `at`: the value and where it ends.
pub open spec fn rd_u64(b: Seq<u8>, at: int) -> Result<(u64, int), DecodeError> {
    match leb_read(b, at, 0, 0, 1) {
        Ok((v, end)) => Ok((v as u64, end)),
        Err(e) => Err(e),
    }
}

/// Reading one integer as a `usize`.
pub open spec fn rd_usize(b: Seq<u8>, at: int) -> Result<(usize, int), DecodeError> {
    match leb_read(b, at, 0, 0, 1) {
        Ok((v, end)) => if v <= usize::MAX {
            Ok((v as usize, end))
        } else {
            Err(DecodeError::Overflow)
        },
        Err(e) => Err(e),
    }
}

/// Reading one boolean byte.
pub open spec fn rd_bool(b: Seq<u8>, at: int) -> Result<(bool, int), DecodeError> {
    if at < 0 || at >= b.len() {
        Err(DecodeError::UnexpectedEnd)
    } else if b[at] == 0 {
        Ok((false, at + 1))
    } else if b[at] == 1 {
        Ok((true, at + 1))
    } else {
        Err(DecodeError::BadBool { byte: b[at] })
    }
}

/// Reading one length-prefixed UTF-8 string.
pub open spec fn rd_str(b: Seq<u8>, at: int) -> Result<(Seq<char>, int), DecodeError> {
    match rd_usize(b, at) {
        Ok((len, end)) => if end + len > b.len() {
            Err(DecodeError::UnexpectedEnd)
        } else {
            let body = b.subrange(end, end + len);
            if vstd::utf8::valid_utf8(body) {
                Ok((vstd::utf8::decode_utf8(body), end + len))
            } else {
                Err(DecodeError::Utf8)
            }
        },
        Err(e) => Err(e),
    }
}

/// Reading one optional integer.
pub open spec fn rd_option_u64(b: Seq<u8>, at: int) -> Result<(Option<u64>, int), DecodeError> {
    match rd_bool(b, at) {
        Ok((present, p)) => if present {
            match rd_u64(b, p) {
                Ok((v, end)) => Ok((Some(v), end)),
                Err(e) => Err(e),
            }
        } else {
            Ok((None, p))
        },
        Err(e) => Err(e),
    }
}

/// Reading a sequence length, which cannot exceed the bytes left.
pub open spec fn rd_seq_len(b: Seq<u8>, at: int) -> Result<(usize, int), DecodeError> {
    match rd_usize(b, at) {
        Ok((len, end)) => if len > b.len() - end {
            Err(DecodeError::TooLong { want: len, remaining: (b.len() - end) as usize })
        } else {
            Ok((len, end))
        },
        Err(e) => Err(e),
    }
}

/// Writes the primitives a record is made of. Every method has exactly one
/// counterpart on [`Decoder`].
#[derive(Debug)]
pub struct Encoder {
    bytes: Vec<u8>,
}

impl View for Encoder {
    type V = Seq<u8>;

    closed spec fn view(&self) -> Seq<u8> {
        self.bytes@
    }
}

/// The encoding of a string: its UTF-8 byte length, then the bytes.
pub open spec fn spec_str_bytes(s: Seq<char>) -> Seq<u8> {
    spec_leb(vstd::utf8::encode_utf8(s).len()) + vstd::utf8::encode_utf8(s)
}

/// The encoding of an optional integer: a present-flag, then the value.
pub open spec fn spec_option_u64_bytes(v: Option<u64>) -> Seq<u8> {
    match v {
        Some(x) => seq![1u8] + spec_leb(x as nat),
        None => seq![0u8],
    }
}

impl Encoder {
    /// An empty encoder.
    pub fn new() -> (r: Self)
        ensures
            r@ == Seq::<u8>::empty(),
    {
        Encoder { bytes: Vec::new() }
    }

    /// The bytes written so far.
    pub fn finish(self) -> (r: Vec<u8>)
        ensures
            r@ == self@,
    {
        self.bytes
    }

    /// How many bytes have been written.
    pub fn byte_len(&self) -> (r: usize)
        ensures
            r == self@.len(),
    {
        self.bytes.len()
    }

    /// LEB128: small numbers cost one byte.
    pub fn u64(&mut self, value: u64)
        ensures
            final(self)@ == old(self)@ + spec_leb(value as nat),
    {
        let mut v = value;
        let ghost start = self@;
        loop
            invariant
                start == old(self)@,
                start + spec_leb(value as nat) == self@ + spec_leb(v as nat),
            ensures
                final(self)@ == start + spec_leb(value as nat),
            decreases v,
        {
            let byte = (v % 128) as u8;
            let ghost before = self@;
            if v < 128 {
                self.bytes.push(byte);
                assert(spec_leb(v as nat) == seq![byte]);
                assert(self@ =~= before + spec_leb(v as nat));
                return;
            }
            self.bytes.push(byte + 128);
            assert(before + spec_leb(v as nat) =~= self@ + spec_leb((v / 128) as nat));
            v = v / 128;
        }
    }

    /// A `usize`, as a [`Encoder::u64`].
    pub fn usize(&mut self, value: usize)
        ensures
            final(self)@ == old(self)@ + spec_leb(value as nat),
    {
        self.u64(value as u64);
    }

    /// One byte, `0` or `1`.
    pub fn bool(&mut self, value: bool)
        ensures
            final(self)@ == old(self)@.push(if value { 1u8 } else { 0u8 }),
    {
        self.bytes.push(if value { 1u8 } else { 0u8 });
    }

    /// Length-prefixed UTF-8.
    pub fn str(&mut self, value: &str)
        ensures
            final(self)@ == old(self)@ + spec_str_bytes(value@),
    {
        let ghost start = self@;
        let bytes = value.as_bytes();
        self.usize(bytes.len());
        let ghost mid = self@;
        let mut i: usize = 0;
        while i < bytes.len()
            invariant
                i <= bytes.len(),
                bytes@ == vstd::utf8::encode_utf8(value@),
                self@ == mid + bytes@.take(i as int),
            decreases bytes.len() - i,
        {
            self.bytes.push(bytes[i]);
            i = i + 1;
            assert(self@ =~= mid + bytes@.take(i as int));
        }
        assert(bytes@.take(i as int) =~= bytes@);
        assert(self@ =~= start + spec_str_bytes(value@));
    }

    /// A present-flag then the value, so [`None`] costs one byte.
    pub fn option_u64(&mut self, value: Option<u64>)
        ensures
            final(self)@ == old(self)@ + spec_option_u64_bytes(value),
    {
        let ghost start = self@;
        match value {
            Some(v) => {
                self.bool(true);
                self.u64(v);
                assert(self@ =~= start + spec_option_u64_bytes(value));
            },
            None => {
                self.bool(false);
                assert(self@ =~= start + spec_option_u64_bytes(value));
            },
        }
    }

    /// How many items follow; the same spelling as [`Encoder::usize`].
    pub fn seq_len(&mut self, len: usize)
        ensures
            final(self)@ == old(self)@ + spec_leb(len as nat),
    {
        self.usize(len);
    }
}

/// Reads what [`Encoder`] wrote.
#[derive(Debug)]
pub struct Decoder<'a> {
    bytes: &'a [u8],
    at: usize,
}

impl<'a> Decoder<'a> {
    /// The bytes being read.
    pub closed spec fn input(&self) -> Seq<u8> {
        self.bytes@
    }

    /// How far the reading has got.
    pub closed spec fn pos(&self) -> int {
        self.at as int
    }

    /// What is left to read.
    pub open spec fn rest(&self) -> Seq<u8> {
        self.input().skip(self.pos())
    }

    /// A decoder is never past its end.
    pub closed spec fn wf(&self) -> bool {
        self.at <= self.bytes@.len()
    }

    /// A decoder over one record's payload.
    pub fn new(bytes: &'a [u8]) -> (r: Self)
        ensures
            r.input() == bytes@,
            r.pos() == 0,
            r.wf(),
    {
        Decoder { bytes, at: 0 }
    }

    /// How many bytes are left unread.
    pub fn remaining(&self) -> (r: usize)
        requires
            self.wf(),
        ensures
            r == self.input().len() - self.pos(),
    {
        self.bytes.len() - self.at
    }

    /// One LEB128 integer.
    pub fn u64(&mut self) -> (r: Result<u64, DecodeError>)
        requires
            old(self).wf(),
        ensures
            final(self).wf(),
            final(self).input() == old(self).input(),
            match rd_u64(old(self).input(), old(self).pos()) {
                Ok((v, end)) => r == Ok::<u64, DecodeError>(v) && final(self).pos() == end,
                Err(e) => r == Err::<u64, DecodeError>(e),
            },
    {
        let start = self.at;
        let mut value: u64 = 0;
        let mut mult: u64 = 1;
        let mut i: usize = 0;
        proof {
            lemma_leb_read_bound(self.bytes@, start as int, 0, 0, 1);
        }
        loop
            invariant
                i < 10,
                start == old(self).at,
                self.bytes@ == old(self).bytes@,
                start <= self.bytes@.len(),
                self.at == start + i,
                self.at <= self.bytes@.len(),
                mult == pow128(i as nat),
                value < mult,
                leb_read(self.bytes@, start as int, 0, 0, 1) == leb_read(self.bytes@, start as int, i as nat, value as nat, mult as nat),
            decreases 10 - i,
        {
            if self.at >= self.bytes.len() {
                return Err(DecodeError::UnexpectedEnd);
            }
            let byte = self.bytes[self.at];
            self.at = self.at + 1;
            let part = (byte % 128) as u64;
            let prod = match part.checked_mul(mult) {
                Some(p) => p,
                None => return Err(DecodeError::Overflow),
            };
            let ghost acc = value as nat;
            proof {
                lemma_leb_step_bound(acc, part as nat, mult as nat, i as nat);
            }
            value = value + prod;
            if byte < 128 {
                return Ok(value);
            }
            if i == 9 {
                assert(leb_read(self.bytes@, start as int, 10, value as nat, (mult * 128) as nat) == Err::<(nat, int), DecodeError>(DecodeError::Overflow));
                return Err(DecodeError::Overflow);
            }
            mult = mult * 128;
            i = i + 1;
        }
    }

    /// One integer, as a `usize`.
    pub fn usize(&mut self) -> (r: Result<usize, DecodeError>)
        requires
            old(self).wf(),
        ensures
            final(self).wf(),
            final(self).input() == old(self).input(),
            match rd_usize(old(self).input(), old(self).pos()) {
                Ok((v, end)) => r == Ok::<usize, DecodeError>(v) && final(self).pos() == end,
                Err(e) => r == Err::<usize, DecodeError>(e),
            },
    {
        proof {
            lemma_leb_read_bound(self.input(), self.pos(), 0, 0, 1);
        }
        let v = self.u64()?;
        if v <= usize::MAX as u64 {
            Ok(v as usize)
        } else {
            Err(DecodeError::Overflow)
        }
    }

    /// One boolean: `0` or `1`, and any other byte is corruption.
    pub fn bool(&mut self) -> (r: Result<bool, DecodeError>)
        requires
            old(self).wf(),
        ensures
            final(self).wf(),
            final(self).input() == old(self).input(),
            match rd_bool(old(self).input(), old(self).pos()) {
                Ok((v, end)) => r == Ok::<bool, DecodeError>(v) && final(self).pos() == end,
                Err(e) => r == Err::<bool, DecodeError>(e),
            },
    {
        if self.at >= self.bytes.len() {
            return Err(DecodeError::UnexpectedEnd);
        }
        let byte = self.bytes[self.at];
        self.at = self.at + 1;
        if byte == 0 {
            Ok(false)
        } else if byte == 1 {
            Ok(true)
        } else {
            Err(DecodeError::BadBool { byte })
        }
    }

    /// One length-prefixed UTF-8 string.
    pub fn str(&mut self) -> (r: Result<String, DecodeError>)
        requires
            old(self).wf(),
        ensures
            final(self).wf(),
            final(self).input() == old(self).input(),
            match rd_str(old(self).input(), old(self).pos()) {
                Ok((v, end)) => (r matches Ok(t) && t@ == v) && final(self).pos() == end,
                Err(e) => r == Err::<String, DecodeError>(e),
            },
    {
        let len = self.usize()?;
        if self.bytes.len() - self.at < len {
            return Err(DecodeError::UnexpectedEnd);
        }
        let mut body: Vec<u8> = Vec::new();
        let start = self.at;
        let end = start + len;
        while self.at < end
            invariant
                end == start + len,
                start <= self.at <= end,
                end <= self.bytes@.len(),
                self.bytes@ == old(self).bytes@,
                body@ == self.bytes@.subrange(start as int, self.at as int),
            decreases end - self.at,
        {
            body.push(self.bytes[self.at]);
            self.at = self.at + 1;
            assert(body@ =~= self.bytes@.subrange(start as int, self.at as int));
        }
        match utf8_string(body) {
            Some(s) => Ok(s),
            None => Err(DecodeError::Utf8),
        }
    }

    /// One optional integer.
    pub fn option_u64(&mut self) -> (r: Result<Option<u64>, DecodeError>)
        requires
            old(self).wf(),
        ensures
            final(self).wf(),
            final(self).input() == old(self).input(),
            match rd_option_u64(old(self).input(), old(self).pos()) {
                Ok((v, end)) => r == Ok::<Option<u64>, DecodeError>(v) && final(self).pos() == end,
                Err(e) => r == Err::<Option<u64>, DecodeError>(e),
            },
    {
        if self.bool()? {
            Ok(Some(self.u64()?))
        } else {
            Ok(None)
        }
    }

    /// A sequence length, bounded by what is left: every item costs at least a
    /// byte, so a longer claim is corruption.
    pub fn seq_len(&mut self) -> (r: Result<usize, DecodeError>)
        requires
            old(self).wf(),
        ensures
            final(self).wf(),
            final(self).input() == old(self).input(),
            match rd_seq_len(old(self).input(), old(self).pos()) {
                Ok((v, end)) => r == Ok::<usize, DecodeError>(v) && final(self).pos() == end,
                Err(e) => r == Err::<usize, DecodeError>(e),
            },
    {
        let len = self.usize()?;
        let remaining = self.remaining();
        if len > remaining {
            return Err(DecodeError::TooLong { want: len, remaining });
        }
        Ok(len)
    }

    /// Whether the record is fully consumed; trailing bytes are a schema bug.
    pub fn finish(self) -> (r: Result<(), DecodeError>)
        requires
            self.wf(),
        ensures
            self.rest().len() == 0 ==> r == Ok::<(), DecodeError>(()),
            self.rest().len() > 0 ==> r == Err::<(), DecodeError>(DecodeError::Trailing {
                extra: self.rest().len() as usize,
            }),
    {
        let extra = self.remaining();
        if extra == 0 {
            Ok(())
        } else {
            Err(DecodeError::Trailing { extra })
        }
    }
}

/// Bytes as a string, if they are UTF-8 (`std::string::String::from_utf8`).
#[verifier::external_body]
fn utf8_string(bytes: Vec<u8>) -> (r: Option<String>)
    ensures
        r.is_some() == vstd::utf8::valid_utf8(bytes@),
        r.is_some() ==> r.unwrap()@ == vstd::utf8::decode_utf8(bytes@),
{
    String::from_utf8(bytes).ok()
}

/// What [`leb_read`] returns is a `u64` ending past where it started.
pub proof fn lemma_leb_read_bound(bytes: Seq<u8>, at: int, i: nat, acc: nat, mult: nat)
    requires
        i <= 10,
        mult == pow128(i),
        acc < mult,
    ensures
        leb_read(bytes, at, i, acc, mult) matches Ok((v, end)) ==> v < u64_limit() && at + i < end <= bytes.len(),
    decreases 10 - i,
{
    if i < 10 && 0 <= at + i < bytes.len() {
        let byte = bytes[at + i];
        let part = (byte % 128) as nat;
        if part * mult < u64_limit() {
            lemma_leb_step_bound(acc, part, mult, i);
            if byte >= 128 {
                lemma_leb_read_bound(bytes, at, i + 1, acc + part * mult, mult * 128);
            }
        }
    }
}

/// One step of a LEB128 read stays below both the next weight and `2^64`.
proof fn lemma_leb_step_bound(acc: nat, part: nat, mult: nat, i: nat)
    requires
        i < 10,
        mult == pow128(i),
        acc < mult,
        part < 128,
        part * mult < u64_limit(),
    ensures
        acc + part * mult < mult * 128,
        acc + part * mult < u64_limit(),
        mult * 128 == pow128(i + 1),
        i <= 8 ==> mult * 128 <= 0x8000_0000_0000_0000,
{
    assert(acc + part * mult < mult * 128) by (nonlinear_arith)
        requires
            acc < mult,
            part < 128,
    ;
    lemma_pow128_values();
    if i <= 8 {
        lemma_pow128_small(i);
        assert(mult * 128 <= 0x8000_0000_0000_0000) by (nonlinear_arith)
            requires
                mult <= 0x0100_0000_0000_0000,
        ;
    } else {
        assert(part <= 1) by (nonlinear_arith)
            requires
                part * mult < u64_limit(),
                mult == 0x8000_0000_0000_0000,
        ;
        assert(part * mult <= mult) by (nonlinear_arith)
            requires
                part <= 1,
        ;
    }
}

/// A LEB128 spelling is at most `k` bytes when the value is below `128^k`.
proof fn lemma_leb_len(v: nat, k: nat)
    requires
        1 <= k,
        v < pow128(k),
    ensures
        1 <= spec_leb(v).len() <= k,
    decreases v,
{
    if v >= 128 {
        assert(k >= 2) by {
            if k == 1 {
                assert(pow128(1) == 128 * pow128(0));
            }
        }
        assert(pow128(k) == 128 * pow128((k - 1) as nat));
        vstd::arithmetic::div_mod::lemma_fundamental_div_mod(v as int, 128);
        assert(v / 128 < pow128((k - 1) as nat));
        lemma_leb_len(v / 128, (k - 1) as nat);
    }
}

/// Reading a LEB128 spelling that sits at byte `i` of an integer gives back
/// its value, weighted, and ends right after it.
proof fn lemma_leb_read_of(bytes: Seq<u8>, at: int, i: nat, acc: nat, mult: nat, v: nat)
    requires
        0 <= at,
        i + spec_leb(v).len() <= 10,
        mult == pow128(i),
        acc < mult,
        acc + v * mult < u64_limit(),
        at + i + spec_leb(v).len() <= bytes.len(),
        bytes.subrange(at + i, at + i + spec_leb(v).len()) == spec_leb(v),
    ensures
        leb_read(bytes, at, i, acc, mult) == Ok::<(nat, int), DecodeError>((acc + v * mult, at + i + spec_leb(v).len())),
    decreases v,
{
    let l = spec_leb(v);
    assert(bytes[at + i] == l[0]) by {
        assert(bytes.subrange(at + i, at + i + l.len())[0] == bytes[at + i]);
    }
    if v < 128 {
        assert(v * mult <= acc + v * mult);
    } else {
        let low = v % 128;
        let high = v / 128;
        vstd::arithmetic::div_mod::lemma_fundamental_div_mod(v as int, 128);
        assert(v == low + 128 * high);
        assert(low * mult <= v * mult) by (nonlinear_arith)
            requires
                low <= v,
        ;
        assert(acc + low * mult < mult * 128) by (nonlinear_arith)
            requires
                acc < mult,
                low < 128,
        ;
        assert(acc + low * mult + high * (mult * 128) == acc + v * mult) by (nonlinear_arith)
            requires
                v == low + 128 * high,
        ;
        assert(mult * 128 == pow128(i + 1));
        let l2 = spec_leb(high);
        assert(l =~= seq![(low + 128) as u8] + l2);
        assert(bytes.subrange(at + (i + 1), at + (i + 1) + l2.len()) =~= l2) by {
            assert forall|j: int| 0 <= j < l2.len() implies bytes.subrange(at + (i + 1), at + (i + 1) + l2.len())[j] == l2[j] by {
                assert(bytes.subrange(at + i, at + i + l.len())[j + 1] == l[j + 1]);
            }
        }
        lemma_leb_read_of(bytes, at, i + 1, acc + low * mult, mult * 128, high);
    }
}

proof fn lemma_leb_round_trip(pre: Seq<u8>, v: nat, rest: Seq<u8>)
    requires
        v < u64_limit(),
    ensures
        leb_read(pre + spec_leb(v) + rest, pre.len() as int, 0, 0, 1) == Ok::<(nat, int), DecodeError>((v, (pre.len() + spec_leb(v).len()) as int)),
{
    let bytes = pre + spec_leb(v) + rest;
    lemma_pow128_values();
    lemma_leb_len(v, 10);
    assert(bytes.subrange(pre.len() as int, (pre.len() + spec_leb(v).len()) as int) =~= spec_leb(v));
    lemma_leb_read_of(bytes, pre.len() as int, 0, 0, 1, v);
}

/// What [`Encoder::u64`] writes, [`Decoder::u64`] reads back, whatever
/// surrounds it.
pub proof fn lemma_u64_round_trip(pre: Seq<u8>, v: u64, rest: Seq<u8>)
    ensures
        rd_u64(pre + spec_leb(v as nat) + rest, pre.len() as int) == Ok::<(u64, int), DecodeError>((v, (pre.len() + spec_leb(v as nat).len()) as int)),
{
    lemma_leb_round_trip(pre, v as nat, rest);
}

/// What [`Encoder::usize`] writes, [`Decoder::usize`] reads back.
pub proof fn lemma_usize_round_trip(pre: Seq<u8>, v: usize, rest: Seq<u8>)
    ensures
        rd_usize(pre + spec_leb(v as nat) + rest, pre.len() as int) == Ok::<(usize, int), DecodeError>((v, (pre.len() + spec_leb(v as nat).len()) as int)),
{
    lemma_leb_round_trip(pre, v as nat, rest);
}

/// What [`Encoder::bool`] writes, [`Decoder::bool`] reads back.
pub proof fn lemma_bool_round_trip(pre: Seq<u8>, v: bool, rest: Seq<u8>)
    ensures
        rd_bool(pre + seq![if v { 1u8 } else { 0u8 }] + rest, pre.len() as int) == Ok::<(bool, int), DecodeError>((v, pre.len() + 1int)),
{
    let bytes = pre + seq![if v { 1u8 } else { 0u8 }] + rest;
    assert(bytes[pre.len() as int] == if v { 1u8 } else { 0u8 });
}

/// What [`Encoder::str`] writes, [`Decoder::str`] reads back.
pub proof fn lemma_str_round_trip(pre: Seq<u8>, v: Seq<char>, rest: Seq<u8>)
    requires
        vstd::utf8::encode_utf8(v).len() <= usize::MAX,
    ensures
        rd_str(pre + spec_str_bytes(v) + rest, pre.len() as int) == Ok::<(Seq<char>, int), DecodeError>((v, (pre.len() + spec_str_bytes(v).len()) as int)),
{
    let body = vstd::utf8::encode_utf8(v);
    let n = body.len() as usize;
    let bytes = pre + spec_str_bytes(v) + rest;
    assert(bytes =~= pre + spec_leb(n as nat) + (body + rest));
    lemma_usize_round_trip(pre, n, body + rest);
    let end = (pre.len() + spec_leb(n as nat).len()) as int;
    assert(bytes.subrange(end, end + n) =~= body);
    vstd::utf8::encode_utf8_valid_utf8(v);
    vstd::utf8::encode_utf8_decode_utf8(v);
}

/// What [`Encoder::option_u64`] writes, [`Decoder::option_u64`] reads back.
pub proof fn lemma_option_u64_round_trip(pre: Seq<u8>, v: Option<u64>, rest: Seq<u8>)
    ensures
        rd_option_u64(pre + spec_option_u64_bytes(v) + rest, pre.len() as int) == Ok::<(Option<u64>, int), DecodeError>((v, (pre.len() + spec_option_u64_bytes(v).len()) as int)),
{
    let bytes = pre + spec_option_u64_bytes(v) + rest;
    match v {
        Some(x) => {
            assert(bytes =~= pre + seq![1u8] + (spec_leb(x as nat) + rest));
            lemma_bool_round_trip(pre, true, spec_leb(x as nat) + rest);
            assert(bytes =~= (pre + seq![1u8]) + spec_leb(x as nat) + rest);
            lemma_u64_round_trip(pre + seq![1u8], x, rest);
        },
        None => {
            assert(bytes =~= pre + seq![0u8] + rest);
            lemma_bool_round_trip(pre, false, rest);
        },
    }
}

proof fn lemma_pow128_small(i: nat)
    requires
        i <= 8,
    ensures
        pow128(i) <= 0x0100_0000_0000_0000,
    decreases i,
{
    if i > 0 {
        lemma_pow128_small((i - 1) as nat);
    }
    lemma_pow128_values();
    lemma_pow128_mono(i, 8);
}

proof fn lemma_pow128_values()
    ensures
        pow128(8) == 0x0100_0000_0000_0000,
        pow128(9) == 0x8000_0000_0000_0000,
        pow128(10) == 0x40_0000_0000_0000_0000,
{
    reveal_with_fuel(pow128, 11);
}

proof fn lemma_pow128_mono(i: nat, j: nat)
    requires
        i <= j,
    ensures
        pow128(i) <= pow128(j),
    decreases j,
{
    if i < j {
        lemma_pow128_mono(i, (j - 1) as nat);
    }
}

/// An integer costs as few bytes as it can: its LEB128 spelling is one byte
/// for a value below `128`, and otherwise the `n` bytes with
/// `128^(n-1) <= v < 128^n`.
pub proof fn lemma_leb_length(v: nat)
    ensures
        spec_leb(v).len() >= 1,
        v < pow128(spec_leb(v).len()),
        spec_leb(v).len() == 1 || pow128((spec_leb(v).len() - 1) as nat) <= v,
        (spec_leb(v).len() == 1) == (v < 128),
    decreases v,
{
    assert(pow128(1) == 128) by {
        reveal_with_fuel(pow128, 2);
    }
    if v >= 128 {
        let high = v / 128;
        lemma_leb_length(high);
        let n = spec_leb(high).len();
        assert(spec_leb(v).len() == 1 + n);
        vstd::arithmetic::div_mod::lemma_fundamental_div_mod(v as int, 128);
        assert(pow128(n + 1) == 128 * pow128(n));
        assert(v < 128 * pow128(n)) by (nonlinear_arith)
            requires
                v == 128 * high + v % 128,
                v % 128 < 128,
                high < pow128(n),
        ;
        if n > 1 {
            assert(pow128(n) == 128 * pow128((n - 1) as nat));
            assert(128 * pow128((n - 1) as nat) <= v) by (nonlinear_arith)
                requires
                    v == 128 * high + v % 128,
                    v % 128 >= 0,
                    pow128((n - 1) as nat) <= high,
            ;
        } else {
            assert(pow128(0) == 1);
        }
    }
}

/// Why a record's payload would not decode.
#[derive(Debug, Clone, Copy, PartialEq, Eq, Structural)]
pub enum DecodeError {
    /// The record ended in the middle of a value.
    UnexpectedEnd,
    /// A varint does not fit a `u64`, or a value does not fit a `usize`.
    Overflow,
    /// A byte that should have been `0` or `1` was not.
    BadBool {
        /// What was there.
        byte: u8,
    },
    /// A string's bytes are not UTF-8.
    Utf8,
    /// A sequence claims more items than the record has bytes.
    TooLong {
        /// The claimed length.
        want: usize,
        /// Bytes left in the record.
        remaining: usize,
    },
    /// The record's leading tag is not one this schema version knows.
    UnknownRecord {
        /// The tag that was there.
        tag: u64,
    },
    /// The record decoded with bytes left over.
    Trailing {
        /// How many.
        extra: usize,
    },
}


/// What a decode error says.
pub open spec fn spec_decode_message(e: DecodeError) -> Seq<char> {
    match e {
        DecodeError::UnexpectedEnd => "record ended mid-value"@,
        DecodeError::Overflow => "integer does not fit"@,
        DecodeError::BadBool { byte } => "expected 0 or 1, found "@ + spec_decimal(byte as nat),
        DecodeError::Utf8 => "string is not utf-8"@,
        DecodeError::TooLong { want, remaining } => "sequence of "@ + spec_decimal(want as nat) + " in a record with "@
            + spec_decimal(remaining as nat) + " bytes left"@,
        DecodeError::UnknownRecord { tag } => "unknown record tag "@ + spec_decimal(tag as nat),
        DecodeError::Trailing { extra } => spec_decimal(extra as nat) + " bytes left after the record"@,
    }
}

impl DecodeError {
    /// What this error says, for a person.
    pub fn message(&self) -> (r: String)
        ensures
            r@ == spec_decode_message(*self),
    {
        let mut out = String::new();
        match self {
            DecodeError::UnexpectedEnd => push_str(&mut out, "record ended mid-value"),
            DecodeError::Overflow => push_str(&mut out, "integer does not fit"),
            DecodeError::BadBool { byte } => {
                push_str(&mut out, "expected 0 or 1, found ");
                push_decimal(&mut out, *byte as u64);
            },
            DecodeError::Utf8 => push_str(&mut out, "string is not utf-8"),
            DecodeError::TooLong { want, remaining } => {
                push_str(&mut out, "sequence of ");
                push_decimal(&mut out, *want as u64);
                push_str(&mut out, " in a record with ");
                push_decimal(&mut out, *remaining as u64);
                push_str(&mut out, " bytes left");
            },
            DecodeError::UnknownRecord { tag } => {
                push_str(&mut out, "unknown record tag ");
                push_decimal(&mut out, *tag);
            },
            DecodeError::Trailing { extra } => {
                push_decimal(&mut out, *extra as u64);
                push_str(&mut out, " bytes left after the record");
            },
        }
        assert(out@ =~= spec_decode_message(*self));
        out
    }
}

// ---------------------------------------------------------------------------
// Framing
// ---------------------------------------------------------------------------

/// The format of the container itself, independent of any stream.
pub const FORMAT_VERSION: u16 = 1;

/// The header: eight bytes of magic, then format, stream kind and stream
/// version as little-endian `u16`s, then two bytes of padding.
pub const HEADER_LEN: usize = 16;

/// Each frame is `len: u32 LE`, `crc32: u32 LE`, then `len` payload bytes.
pub const FRAME_PREFIX: usize = 8;

/// The largest payload a frame can carry, plus one.
pub open spec fn frame_limit() -> nat {
    0x1_0000_0000
}

/// Which record schema a journal holds, and at what version.
#[derive(Debug, Clone, Copy, PartialEq, Eq, Structural)]
pub struct Stream {
    /// What is stored: undo history, seen-state, ….
    pub kind: u16,
    /// The schema version of that kind's records.
    pub version: u16,
}

impl Stream {
    /// Per-file undo history.
    pub fn undo() -> (r: Stream)
        ensures
            r == (Stream { kind: 1, version: 1 }),
    {
        Stream { kind: 1, version: 1 }
    }

    /// Per-workspace seen-state, reserved so the two streams cannot collide.
    pub fn seen() -> (r: Stream)
        ensures
            r == (Stream { kind: 2, version: 1 }),
    {
        Stream { kind: 2, version: 1 }
    }

    /// `undo/1`, `seen/1`, `unknown/…`: how a message names the stream.
    pub fn describe(&self) -> (r: String)
        ensures
            r@ == spec_stream_name(self.kind) + seq!['/'] + spec_decimal(self.version as nat),
    {
        let mut out = String::new();
        proof {
            reveal_strlit("undo");
            reveal_strlit("seen");
            reveal_strlit("unknown");
        }
        if self.kind == 1 {
            push_str(&mut out, "undo");
        } else if self.kind == 2 {
            push_str(&mut out, "seen");
        } else {
            push_str(&mut out, "unknown");
        }
        push_char(&mut out, '/');
        let digits = decimal_chars(self.version as u64);
        push_chars(&mut out, &digits);
        out
    }
}

/// The name a stream kind goes by in messages.
pub open spec fn spec_stream_name(kind: u16) -> Seq<char> {
    if kind == 1 {
        "undo"@
    } else if kind == 2 {
        "seen"@
    } else {
        "unknown"@
    }
}

/// What [`recover`] found and threw away.
#[derive(Debug, Clone, Copy, PartialEq, Eq, Structural, Default)]
pub struct Recovery {
    /// Bytes past the last good frame, now truncated away.
    pub discarded_bytes: u64,
    /// Records that were read back intact.
    pub records: u64,
}

impl Recovery {
    /// Nothing was lost: the file ended on a frame boundary.
    pub fn is_clean(&self) -> (r: bool)
        ensures
            r == (self.discarded_bytes == 0),
    {
        self.discarded_bytes == 0
    }
}

/// `v` as two little-endian bytes.
pub open spec fn le16(v: u16) -> Seq<u8> {
    seq![(v % 256) as u8, (v / 256) as u8]
}

/// `v` as four little-endian bytes.
pub open spec fn le32(v: u32) -> Seq<u8> {
    seq![(v % 256) as u8, ((v / 256) % 256) as u8, ((v / 65536) % 256) as u8, (v / 16777216) as u8]
}

/// Four little-endian bytes as the `u32` they spell.
pub open spec fn from_le32(b: Seq<u8>) -> u32
    recommends
        b.len() == 4,
{
    (b[0] + 256 * b[1] + 65536 * b[2] + 16777216 * b[3]) as u32
}

/// `PHOSJRNL`.
pub open spec fn spec_magic() -> Seq<u8> {
    seq![0x50u8, 0x48u8, 0x4Fu8, 0x53u8, 0x4Au8, 0x52u8, 0x4Eu8, 0x4Cu8]
}

/// The sixteen header bytes of a journal holding `stream`.
pub open spec fn spec_header(stream: Stream) -> Seq<u8> {
    spec_magic() + le16(FORMAT_VERSION) + le16(stream.kind) + le16(stream.version) + seq![0u8, 0u8]
}

/// One step of the reflected CRC-32 (polynomial `0xedb88320`).
pub open spec fn crc_step(c: u32) -> u32 {
    if c & 1 == 0 {
        c >> 1
    } else {
        0xedb8_8320u32 ^ (c >> 1)
    }
}

/// `n` steps of [`crc_step`].
pub open spec fn crc_steps(c: u32, n: nat) -> u32
    decreases n,
{
    if n == 0 {
        c
    } else {
        crc_steps(crc_step(c), (n - 1) as nat)
    }
}

/// The register after taking in one more byte.
pub open spec fn crc_byte(c: u32, b: u8) -> u32 {
    crc_steps(c ^ (b as u32), 8)
}

/// The register after taking in `bytes`, starting from `c`.
#[verifier::opaque]
pub open spec fn crc_fold(c: u32, bytes: Seq<u8>) -> u32
    decreases bytes.len(),
{
    if bytes.len() == 0 {
        c
    } else {
        crc_byte(crc_fold(c, bytes.drop_last()), bytes.last())
    }
}

/// CRC-32 (IEEE), as zlib and PNG compute it.
pub open spec fn spec_crc32(bytes: Seq<u8>) -> u32 {
    !crc_fold(0xffff_ffffu32, bytes)
}

/// A payload's frame: its length, the checksum over length and payload, then
/// the payload.
pub open spec fn spec_frame(payload: Seq<u8>) -> Seq<u8>
    recommends
        payload.len() < frame_limit(),
{
    let len = le32(payload.len() as u32);
    len + le32(spec_crc32(len + payload)) + payload
}

/// The frames of `payloads`, back to back.
pub open spec fn spec_frames(payloads: Seq<Seq<u8>>) -> Seq<u8>
    decreases payloads.len(),
{
    if payloads.len() == 0 {
        Seq::empty()
    } else {
        spec_frames(payloads.drop_last()) + spec_frame(payloads.last())
    }
}

/// Reading frames from `at` on: the payloads that check out, in order, and
/// the offset just past the last of them. Reading stops at the first frame
/// that is short, runs past the end, or fails its checksum.
#[verifier::opaque]
pub open spec fn spec_scan(data: Seq<u8>, at: int) -> (Seq<Seq<u8>>, int)
    decreases data.len() - at,
{
    if at < 0 || at >= data.len() || data.len() - at < 8 {
        (Seq::empty(), at)
    } else {
        let len_bytes = data.subrange(at, at + 4);
        let len = from_le32(len_bytes);
        let crc = from_le32(data.subrange(at + 4, at + 8));
        let start = at + 8;
        let end = start + len;
        if end > data.len() {
            (Seq::empty(), at)
        } else {
            let payload = data.subrange(start, end);
            if spec_crc32(len_bytes + payload) != crc {
                (Seq::empty(), at)
            } else {
                let rest = spec_scan(data, end);
                (seq![payload] + rest.0, rest.1)
            }
        }
    }
}

fn crc_register_byte(c: u32, b: u8) -> (r: u32)
    ensures
        r == crc_byte(c, b),
{
    let mut x = c ^ (b as u32);
    let mut k: usize = 0;
    while k < 8
        invariant
            k <= 8,
            crc_steps(x, (8 - k) as nat) == crc_byte(c, b),
        decreases 8 - k,
    {
        if x & 1 == 0 {
            x = x >> 1;
        } else {
            x = 0xedb8_8320u32 ^ (x >> 1);
        }
        k = k + 1;
    }
    x
}

/// The frame checksum: CRC-32 over the length bytes, then the payload.
fn frame_crc(len_bytes: &[u8], payload: &[u8]) -> (r: u32)
    ensures
        r == spec_crc32(len_bytes@ + payload@),
{
    let ghost all = len_bytes@ + payload@;
    let mut c: u32 = 0xffff_ffffu32;
    let mut i: usize = 0;
    proof {
        reveal(crc_fold);
        assert(all.take(0) =~= Seq::<u8>::empty());
    }
    while i < len_bytes.len()
        invariant
            i <= len_bytes.len(),
            all == len_bytes@ + payload@,
            c == crc_fold(0xffff_ffffu32, all.take(i as int)),
        decreases len_bytes.len() - i,
    {
        assert(all.take(i + 1).drop_last() =~= all.take(i as int));
        reveal(crc_fold);
        c = crc_register_byte(c, len_bytes[i]);
        i = i + 1;
    }
    let mut j: usize = 0;
    while j < payload.len()
        invariant
            j <= payload.len(),
            i == len_bytes.len(),
            all == len_bytes@ + payload@,
            c == crc_fold(0xffff_ffffu32, all.take(i + j)),
        decreases payload.len() - j,
    {
        assert(all.take(i + j + 1).drop_last() =~= all.take(i + j));
        reveal(crc_fold);
        c = crc_register_byte(c, payload[j]);
        j = j + 1;
    }
    assert(all.take(i + j) =~= all);
    !c
}

fn le16_bytes(v: u16, out: &mut Vec<u8>)
    ensures
        final(out)@ == old(out)@ + le16(v),
{
    out.push((v % 256) as u8);
    out.push((v / 256) as u8);
    assert(final(out)@ =~= old(out)@ + le16(v));
}

fn le32_bytes(v: u32) -> (r: Vec<u8>)
    ensures
        r@ == le32(v),
{
    let mut out: Vec<u8> = Vec::new();
    out.push((v % 256) as u8);
    out.push(((v / 256) % 256) as u8);
    out.push(((v / 65536) % 256) as u8);
    out.push((v / 16777216) as u8);
    assert(out@ =~= le32(v));
    out
}

fn read_le32(data: &[u8], at: usize) -> (r: u32)
    requires
        at + 4 <= data@.len(),
    ensures
        r == from_le32(data@.subrange(at as int, at + 4)),
{
    let b0 = data[at] as u32;
    let b1 = data[at + 1] as u32;
    let b2 = data[at + 2] as u32;
    let b3 = data[at + 3] as u32;
    b0 + 256 * b1 + 65536 * b2 + 16777216 * b3
}

proof fn lemma_le32_round_trip(v: u32)
    ensures
        from_le32(le32(v)) == v,
{
    assert(from_le32(le32(v)) == v) by (nonlinear_arith)
        requires
            le32(v) == seq![(v % 256) as u8, ((v / 256) % 256) as u8, ((v / 65536) % 256) as u8, (v / 16777216) as u8],
    {
        assert(le32(v)[0] == v % 256);
    }
}

/// The header a fresh journal for `stream` starts with.
pub fn header_bytes(stream: Stream) -> (r: Vec<u8>)
    ensures
        r@ == spec_header(stream),
{
    let mut out: Vec<u8> = Vec::new();
    out.push(0x50u8);
    out.push(0x48u8);
    out.push(0x4Fu8);
    out.push(0x53u8);
    out.push(0x4Au8);
    out.push(0x52u8);
    out.push(0x4Eu8);
    out.push(0x4Cu8);
    assert(out@ =~= spec_magic());
    le16_bytes(FORMAT_VERSION, &mut out);
    le16_bytes(stream.kind, &mut out);
    le16_bytes(stream.version, &mut out);
    out.push(0u8);
    out.push(0u8);
    assert(out@ =~= spec_header(stream));
    out
}

/// Two little-endian bytes as the `u16` they spell.
pub open spec fn from_le16(b: Seq<u8>) -> u16
    recommends
        b.len() == 2,
{
    (b[0] + 256 * b[1]) as u16
}

/// Whether `data` starts with the journal magic.
pub open spec fn has_magic(data: Seq<u8>) -> bool {
    data.len() >= HEADER_LEN && data.take(8) == spec_magic()
}

/// The stream a header names.
pub open spec fn header_stream(data: Seq<u8>) -> Stream {
    Stream { kind: from_le16(data.subrange(10, 12)), version: from_le16(data.subrange(12, 14)) }
}

/// Checks that `data` is a journal of this format holding `want`.
pub fn read_header(path: &str, data: &[u8], want: Stream) -> (r: Result<(), Error>)
    ensures
        !has_magic(data@) ==> (r matches Err(Error::NotAJournal { path: p }) && p@ == path@),
        has_magic(data@) && from_le16(data@.subrange(8, 10)) != FORMAT_VERSION ==> (r matches Err(
            Error::WrongFormat { path: p, found, expected },
        ) && p@ == path@ && found == from_le16(data@.subrange(8, 10)) && expected == FORMAT_VERSION),
        has_magic(data@) && from_le16(data@.subrange(8, 10)) == FORMAT_VERSION && header_stream(data@)
            != want ==> (r matches Err(Error::WrongStream { path: p, found, expected }) && p@ == path@
            && found == header_stream(data@) && expected == want),
        r is Ok <==> has_magic(data@) && from_le16(data@.subrange(8, 10)) == FORMAT_VERSION
            && header_stream(data@) == want,
{
    let magic_ok = data.len() >= HEADER_LEN && data[0] == 0x50u8 && data[1] == 0x48u8 && data[2]
        == 0x4Fu8 && data[3] == 0x53u8 && data[4] == 0x4Au8 && data[5] == 0x52u8 && data[6] == 0x4Eu8
        && data[7] == 0x4Cu8;
    proof {
        if data@.len() >= HEADER_LEN {
            if magic_ok {
                assert(data@.take(8) =~= spec_magic());
            } else if data@.take(8) == spec_magic() {
                assert(data@.take(8)[0] == data@[0]);
                assert(data@.take(8)[7] == data@[7]);
            }
        }
    }
    if !magic_ok {
        return Err(Error::NotAJournal { path: path.to_string() });
    }
    let format = (data[8] as u16) + 256 * (data[9] as u16);
    assert(format == from_le16(data@.subrange(8, 10)));
    if format != FORMAT_VERSION {
        return Err(Error::WrongFormat { path: path.to_string(), found: format, expected: FORMAT_VERSION });
    }
    let found = Stream {
        kind: (data[10] as u16) + 256 * (data[11] as u16),
        version: (data[12] as u16) + 256 * (data[13] as u16),
    };
    assert(found == header_stream(data@));
    if found.kind != want.kind || found.version != want.version {
        return Err(Error::WrongStream { path: path.to_string(), found, expected: want });
    }
    Ok(())
}

/// Every frame from the header on that checks out, and where they end.
pub fn scan(data: &[u8]) -> (r: (Vec<Vec<u8>>, usize))
    ensures
        r.0.len() == spec_scan(data@, HEADER_LEN as int).0.len(),
        forall|i: int| 0 <= i < r.0.len() ==> #[trigger] r.0[i]@ == spec_scan(data@, HEADER_LEN as int).0[i],
        r.1 == spec_scan(data@, HEADER_LEN as int).1,
{
    let mut records: Vec<Vec<u8>> = Vec::new();
    let mut at: usize = HEADER_LEN;
    let ghost whole = spec_scan(data@, HEADER_LEN as int);
    loop
        invariant
            whole == spec_scan(data@, HEADER_LEN as int),
            whole.1 == spec_scan(data@, at as int).1,
            whole.0.len() == records.len() + spec_scan(data@, at as int).0.len(),
            forall|i: int| 0 <= i < records.len() ==> #[trigger] records[i]@ == whole.0[i],
            forall|i: int| 0 <= i < spec_scan(data@, at as int).0.len() ==> whole.0[records.len() + i]
                == #[trigger] spec_scan(data@, at as int).0[i],
        ensures
            whole.1 == at,
            whole.0.len() == records.len(),
            forall|i: int| 0 <= i < records.len() ==> #[trigger] records[i]@ == whole.0[i],
        decreases data.len() - at,
    {
        proof {
            reveal(spec_scan);
        }
        if at >= data.len() || data.len() - at < FRAME_PREFIX {
            return (records, at);
        }
        let len = read_le32(data, at);
        let crc = read_le32(data, at + 4);
        let start = at + FRAME_PREFIX;
        if data.len() - start < len as usize {
            return (records, at);
        }
        let end = start + len as usize;
        let mut len_bytes: Vec<u8> = Vec::new();
        let mut payload: Vec<u8> = Vec::new();
        let mut k: usize = at;
        let len_end = at + 4;
        while k < len_end
            invariant
                len_end == at + 4,
                len_end <= data@.len(),
                at <= k <= len_end,
                len_bytes@ == data@.subrange(at as int, k as int),
            decreases len_end - k,
        {
            len_bytes.push(data[k]);
            k = k + 1;
            assert(len_bytes@ =~= data@.subrange(at as int, k as int));
        }
        let mut k: usize = start;
        while k < end
            invariant
                end <= data@.len(),
                start <= k <= end,
                payload@ == data@.subrange(start as int, k as int),
            decreases end - k,
        {
            payload.push(data[k]);
            k = k + 1;
            assert(payload@ =~= data@.subrange(start as int, k as int));
        }
        if frame_crc(len_bytes.as_slice(), payload.as_slice()) != crc {
            return (records, at);
        }
        let ghost before = spec_scan(data@, at as int);
        let ghost after = spec_scan(data@, end as int);
        assert(before.0 =~= seq![payload@] + after.0);
        assert(whole.0[records.len() as int] == before.0[0]);
        records.push(payload);
        at = end;
        assert forall|i: int| 0 <= i < spec_scan(data@, at as int).0.len() implies whole.0[records.len() + i]
            == #[trigger] spec_scan(data@, at as int).0[i] by {
            assert(before.0[i + 1] == after.0[i]);
        }
    }
}

/// A payload, framed for appending.
///
/// A payload of `2^32` bytes or more has no frame: [`Error::RecordTooLarge`].
pub fn frame(payload: &[u8]) -> (r: Result<Vec<u8>, Error>)
    ensures
        payload@.len() < frame_limit() ==> (r matches Ok(f) && f@ == spec_frame(payload@)),
        payload@.len() >= frame_limit() ==> r == Err::<Vec<u8>, Error>(
            Error::RecordTooLarge { len: payload.len() },
        ),
{
    if payload.len() > 0xffff_ffffusize {
        return Err(Error::RecordTooLarge { len: payload.len() });
    }
    let len = payload.len() as u32;
    let len_bytes = le32_bytes(len);
    let crc = frame_crc(len_bytes.as_slice(), payload);
    let mut out = len_bytes.clone();
    let crc_bytes = le32_bytes(crc);
    let mut i: usize = 0;
    while i < 4
        invariant
            crc_bytes@.len() == 4,
            i <= 4,
            out@ == len_bytes@ + crc_bytes@.take(i as int),
        decreases 4 - i,
    {
        out.push(crc_bytes[i]);
        i = i + 1;
        assert(out@ =~= len_bytes@ + crc_bytes@.take(i as int));
    }
    assert(crc_bytes@.take(4) =~= crc_bytes@);
    let ghost mid = out@;
    let mut j: usize = 0;
    while j < payload.len()
        invariant
            j <= payload.len(),
            out@ == mid + payload@.take(j as int),
        decreases payload.len() - j,
    {
        out.push(payload[j]);
        j = j + 1;
        assert(out@ =~= mid + payload@.take(j as int));
    }
    assert(payload@.take(j as int) =~= payload@);
    Ok(out)
}

/// A whole journal: the header for `stream`, then every payload framed, in
/// order. What a compaction writes to the file it renames into place.
pub fn framed_log(stream: Stream, payloads: &Vec<Vec<u8>>) -> (r: Result<Vec<u8>, Error>)
    ensures
        (forall|i: int| 0 <= i < payloads.len() ==> #[trigger] payloads[i]@.len() < frame_limit()) ==> (r matches Ok(
            bytes,
        ) && bytes@ == spec_header(stream) + spec_frames(payloads@.map_values(|p: Vec<u8>| p@))),
        (exists|i: int| 0 <= i < payloads.len() && #[trigger] payloads[i]@.len() >= frame_limit()) ==> (r matches Err(
            Error::RecordTooLarge { len },
        ) && exists|i: int| 0 <= i < payloads.len() && #[trigger] payloads[i]@.len() == len && len >= frame_limit()),
{
    let mut out = header_bytes(stream);
    let mut i: usize = 0;
    while i < payloads.len()
        invariant
            i <= payloads.len(),
            forall|k: int| 0 <= k < i ==> #[trigger] payloads[k]@.len() < frame_limit(),
            out@ == spec_header(stream) + spec_frames(payloads@.map_values(|p: Vec<u8>| p@).take(i as int)),
        decreases payloads.len() - i,
    {
        let f = match frame(payloads[i].as_slice()) {
            Ok(f) => f,
            Err(e) => {
                return Err(e);
            },
        };
        let ghost views = payloads@.map_values(|p: Vec<u8>| p@);
        assert(views.take(i + 1).drop_last() =~= views.take(i as int));
        let ghost mid = out@;
        let mut j: usize = 0;
        while j < f.len()
            invariant
                j <= f.len(),
                out@ == mid + f@.take(j as int),
            decreases f.len() - j,
        {
            out.push(f[j]);
            j = j + 1;
            assert(out@ =~= mid + f@.take(j as int));
        }
        assert(f@.take(j as int) =~= f@);
        i = i + 1;
    }
    assert(payloads@.map_values(|p: Vec<u8>| p@).take(i as int) =~= payloads@.map_values(|p: Vec<u8>| p@));
    Ok(out)
}

/// Opens the bytes of an existing journal: checks the header, reads every
/// frame that checks out, and says where the good part ends and how much
/// after it is a torn tail to truncate.
pub fn recover(path: &str, data: &[u8], want: Stream) -> (r: Result<(Vec<Vec<u8>>, Recovery, usize), Error>)
    ensures
        r is Ok <==> has_magic(data@) && from_le16(data@.subrange(8, 10)) == FORMAT_VERSION
            && header_stream(data@) == want,
        r matches Ok((records, recovery, good_end)) ==> {
            let found = spec_scan(data@, HEADER_LEN as int);
            &&& records.len() == found.0.len()
            &&& forall|i: int| 0 <= i < records.len() ==> #[trigger] records[i]@ == found.0[i]
            &&& good_end == found.1
            &&& recovery.records == records.len()
            &&& recovery.discarded_bytes == data@.len() - good_end
        },
        !has_magic(data@) ==> (r matches Err(Error::NotAJournal { path: p }) && p@ == path@),
        has_magic(data@) && from_le16(data@.subrange(8, 10)) != FORMAT_VERSION ==> (r matches Err(
            Error::WrongFormat { path: p, found, expected },
        ) && p@ == path@ && found == from_le16(data@.subrange(8, 10)) && expected == FORMAT_VERSION),
        has_magic(data@) && from_le16(data@.subrange(8, 10)) == FORMAT_VERSION && header_stream(data@)
            != want ==> (r matches Err(Error::WrongStream { path: p, found, expected }) && p@ == path@
            && found == header_stream(data@) && expected == want),
{
    match read_header(path, data, want) {
        Ok(()) => {},
        Err(e) => {
            return Err(e);
        },
    }
    let (records, good_end) = scan(data);
    proof {
        lemma_scan_bounds(data@, HEADER_LEN as int);
    }
    let recovery = Recovery { discarded_bytes: (data.len() - good_end) as u64, records: records.len() as u64 };
    Ok((records, recovery, good_end))
}

/// Where a scan ends is no earlier than where it starts and no later than the
/// data.
pub proof fn lemma_scan_bounds(data: Seq<u8>, at: int)
    requires
        0 <= at <= data.len(),
    ensures
        at <= spec_scan(data, at).1 <= data.len(),
        spec_scan(data, at).0.len() <= data.len() - at,
    decreases data.len() - at,
{
    reveal(spec_scan);
    if at < data.len() && data.len() - at >= 8 {
        let len = from_le32(data.subrange(at, at + 4));
        let end = at + 8 + len;
        if end <= data.len() {
            lemma_scan_bounds(data, end);
        }
    }
}

/// One intact frame is read back as its payload, and the scan goes on right
/// after it.
pub proof fn lemma_scan_frame(d: Seq<u8>, p: Seq<u8>, t: Seq<u8>)
    requires
        p.len() < frame_limit(),
    ensures
        ({
            let x = d + spec_frame(p) + t;
            let rest = spec_scan(x, (d.len() + spec_frame(p).len()) as int);
            spec_scan(x, d.len() as int) == (seq![p] + rest.0, rest.1)
        }),
{
    reveal(spec_scan);
    let x = d + spec_frame(p) + t;
    let at = d.len() as int;
    let lb = le32(p.len() as u32);
    let crc = spec_crc32(lb + p);
    lemma_le32_round_trip(p.len() as u32);
    lemma_le32_round_trip(crc);
    assert(spec_frame(p) == lb + le32(crc) + p);
    assert(x.subrange(at, at + 4) =~= lb);
    assert(x.subrange(at + 4, at + 8) =~= le32(crc));
    let end = at + 8 + p.len();
    assert(x.subrange(at + 8, end) =~= p);
    assert(end <= x.len());
    assert(from_le32(x.subrange(at, at + 4)) == p.len());
    assert(from_le32(x.subrange(at + 4, at + 8)) == crc);
    assert(spec_crc32(x.subrange(at, at + 4) + x.subrange(at + 8, end)) == crc);
}

/// Reading a journal's frames gives back every payload that was framed into
/// it, in order, whatever follows them.
pub proof fn lemma_scan_frames(d: Seq<u8>, payloads: Seq<Seq<u8>>, t: Seq<u8>)
    requires
        forall|i: int| 0 <= i < payloads.len() ==> #[trigger] payloads[i].len() < frame_limit(),
    ensures
        ({
            let x = d + spec_frames(payloads) + t;
            let rest = spec_scan(x, (d.len() + spec_frames(payloads).len()) as int);
            spec_scan(x, d.len() as int) == (payloads + rest.0, rest.1)
        }),
    decreases payloads.len(),
{
    let x = d + spec_frames(payloads) + t;
    if payloads.len() == 0 {
        assert(payloads + spec_scan(x, d.len() as int).0 =~= spec_scan(x, d.len() as int).0);
    } else {
        let front = payloads.drop_last();
        let last = payloads.last();
        let tail = spec_frame(last) + t;
        assert(x =~= d + spec_frames(front) + tail);
        lemma_scan_frames(d, front, tail);
        let d2 = d + spec_frames(front);
        assert(x =~= d2 + spec_frame(last) + t);
        lemma_scan_frame(d2, last, t);
        assert(front + (seq![last] + spec_scan(x, (d2.len() + spec_frame(last).len()) as int).0) =~= payloads
            + spec_scan(x, (d.len() + spec_frames(payloads).len()) as int).0);
    }
}

/// A journal written by [`framed_log`] opens to exactly the payloads it was
/// written with, with nothing discarded.
pub proof fn lemma_recover_framed_log(stream: Stream, payloads: Seq<Seq<u8>>)
    requires
        forall|i: int| 0 <= i < payloads.len() ==> #[trigger] payloads[i].len() < frame_limit(),
    ensures
        ({
            let x = spec_header(stream) + spec_frames(payloads);
            spec_scan(x, HEADER_LEN as int) == (payloads, x.len() as int)
        }),
{
    reveal(spec_scan);
    let x = spec_header(stream) + spec_frames(payloads);
    let empty = Seq::<u8>::empty();
    assert(x =~= spec_header(stream) + spec_frames(payloads) + empty);
    lemma_scan_frames(spec_header(stream), payloads, empty);
    assert(payloads + Seq::<Seq<u8>>::empty() =~= payloads);
}

/// A state kept as a folded log: a record type, how a record moves the state,
/// and the records that rebuild it. Framing, checksums, recovery and
/// compaction are shared; this is what each stream supplies.
pub trait Folded: Sized {
    /// One entry of the log.
    type Record;

    /// What every state the fold builds keeps true.
    spec fn inv(&self) -> bool;

    /// The state before any record.
    fn fresh() -> (r: Self)
        ensures
            r.inv(),
    ;

    /// The stream this state's journals hold.
    fn stream() -> Stream;

    /// Writes one record.
    fn encode(record: &Self::Record, out: &mut Encoder);

    /// Reads one record payload.
    fn decode(bytes: &[u8]) -> Result<Self::Record, DecodeError>;

    /// Moves the state by one record, or says why the record does not fit.
    fn apply(&mut self, record: Self::Record) -> (r: Result<(), FoldError>)
        requires
            old(self).inv(),
        ensures
            final(self).inv(),
    ;

    /// The records that rebuild this state from [`Folded::fresh`].
    fn snapshot(&self) -> Vec<Self::Record>;
}

/// Why a fold refused a record.
#[derive(Debug, Clone, Copy, PartialEq, Eq, Structural)]
pub enum FoldError {
    /// Nodes must arrive in id order with no gaps.
    OutOfOrder {
        /// The id that arrived.
        found: u64,
        /// The id that was due.
        expected: u64,
    },
    /// A record names a node that does not exist.
    UnknownNode {
        /// The id named.
        id: u64,
    },
    /// A node's parent is not an earlier node.
    BadParent {
        /// The node.
        id: u64,
        /// The parent it claims.
        parent: u64,
    },
    /// A redo pointer names something that is not a child of its node.
    BadRedoChild {
        /// The node.
        id: u64,
        /// The child it claims.
        child: u64,
    },
    /// The journal's origin record names a different file.
    WrongOrigin,
}

/// Everything that can go wrong with a journal, paths as text.
#[derive(Debug, Clone, PartialEq, Eq)]
pub enum Error {
    /// An I/O call failed.
    Io {
        /// Where.
        path: String,
        /// What the system said.
        reason: String,
    },
    /// The file is not a journal at all.
    NotAJournal {
        /// The file.
        path: String,
    },
    /// A journal of another container format.
    WrongFormat {
        /// The file.
        path: String,
        /// The format it has.
        found: u16,
        /// The format this build writes.
        expected: u16,
    },
    /// A journal holding another stream.
    WrongStream {
        /// The file.
        path: String,
        /// The stream it holds.
        found: Stream,
        /// The stream that was asked for.
        expected: Stream,
    },
    /// A record that checks out did not decode.
    Decode {
        /// The file.
        path: String,
        /// Why.
        source: DecodeError,
    },
    /// A record decoded and the fold refused it.
    Fold {
        /// The file.
        path: String,
        /// Why.
        source: FoldError,
    },
    /// A payload too large for a frame.
    RecordTooLarge {
        /// Its length.
        len: usize,
    },
    /// Neither `XDG_STATE_HOME` nor `HOME` names an absolute directory.
    NoStateHome,
    /// The state directory is already claimed by another root.
    RootCollision {
        /// The directory.
        dir: String,
        /// The root that claimed it.
        occupant: String,
        /// The root that arrived.
        arrival: String,
    },
}

/// What a fold error says.
pub open spec fn spec_fold_message(e: FoldError) -> Seq<char> {
    match e {
        FoldError::OutOfOrder { found, expected } => "node "@ + spec_decimal(found as nat) + " arrived where node "@
            + spec_decimal(expected as nat) + " was due"@,
        FoldError::UnknownNode { id } => "node "@ + spec_decimal(id as nat) + " is not in this history"@,
        FoldError::BadParent { id, parent } => "node "@ + spec_decimal(id as nat) + " claims parent "@ + spec_decimal(
            parent as nat,
        ) + ", which is not before it"@,
        FoldError::BadRedoChild { id, child } => "node "@ + spec_decimal(id as nat) + " claims redo child "@
            + spec_decimal(child as nat) + ", which is not its child"@,
        FoldError::WrongOrigin => "this journal belongs to a different file"@,
    }
}

impl FoldError {
    /// What this error says, for a person.
    pub fn message(&self) -> (r: String)
        ensures
            r@ == spec_fold_message(*self),
    {
        let mut out = String::new();
        match self {
            FoldError::OutOfOrder { found, expected } => {
                push_str(&mut out, "node ");
                push_decimal(&mut out, *found);
                push_str(&mut out, " arrived where node ");
                push_decimal(&mut out, *expected);
                push_str(&mut out, " was due");
            },
            FoldError::UnknownNode { id } => {
                push_str(&mut out, "node ");
                push_decimal(&mut out, *id);
                push_str(&mut out, " is not in this history");
            },
            FoldError::BadParent { id, parent } => {
                push_str(&mut out, "node ");
                push_decimal(&mut out, *id);
                push_str(&mut out, " claims parent ");
                push_decimal(&mut out, *parent);
                push_str(&mut out, ", which is not before it");
            },
            FoldError::BadRedoChild { id, child } => {
                push_str(&mut out, "node ");
                push_decimal(&mut out, *id);
                push_str(&mut out, " claims redo child ");
                push_decimal(&mut out, *child);
                push_str(&mut out, ", which is not its child");
            },
            FoldError::WrongOrigin => push_str(&mut out, "this journal belongs to a different file"),
        }
        assert(out@ =~= spec_fold_message(*self));
        out
    }
}

/// How a message names a stream: `undo/1`.
pub open spec fn spec_stream_text(s: Stream) -> Seq<char> {
    spec_stream_name(s.kind) + seq!['/'] + spec_decimal(s.version as nat)
}

/// What a journal error says.
pub open spec fn spec_error_message(e: Error) -> Seq<char> {
    match e {
        Error::Io { path, reason } => path@ + ": "@ + reason@,
        Error::NotAJournal { path } => path@ + ": not a phosphor journal"@,
        Error::WrongFormat { path, found, expected } => path@ + ": journal format "@ + spec_decimal(found as nat)
            + ", this build writes "@ + spec_decimal(expected as nat),
        Error::WrongStream { path, found, expected } => path@ + ": holds "@ + spec_stream_text(found) + ", expected "@
            + spec_stream_text(expected),
        Error::Decode { path, source } => path@ + ": "@ + spec_decode_message(source),
        Error::Fold { path, source } => path@ + ": "@ + spec_fold_message(source),
        Error::RecordTooLarge { len } => "record of "@ + spec_decimal(len as nat) + " bytes is past the frame limit"@,
        Error::NoStateHome => "neither XDG_STATE_HOME nor HOME names an absolute directory"@,
        Error::RootCollision { dir, occupant, arrival } => dir@ + " already holds state for "@ + occupant@ + ", not "@
            + arrival@,
    }
}

impl Error {
    /// What this error says, for a person.
    pub fn message(&self) -> (r: String)
        ensures
            r@ == spec_error_message(*self),
    {
        let mut out = String::new();
        match self {
            Error::Io { path, reason } => {
                push_str(&mut out, path.as_str());
                push_str(&mut out, ": ");
                push_str(&mut out, reason.as_str());
            },
            Error::NotAJournal { path } => {
                push_str(&mut out, path.as_str());
                push_str(&mut out, ": not a phosphor journal");
            },
            Error::WrongFormat { path, found, expected } => {
                push_str(&mut out, path.as_str());
                push_str(&mut out, ": journal format ");
                push_decimal(&mut out, *found as u64);
                push_str(&mut out, ", this build writes ");
                push_decimal(&mut out, *expected as u64);
            },
            Error::WrongStream { path, found, expected } => {
                push_str(&mut out, path.as_str());
                push_str(&mut out, ": holds ");
                let f = found.describe();
                push_str(&mut out, f.as_str());
                push_str(&mut out, ", expected ");
                let e = expected.describe();
                push_str(&mut out, e.as_str());
            },
            Error::Decode { path, source } => {
                push_str(&mut out, path.as_str());
                push_str(&mut out, ": ");
                let m = source.message();
                push_str(&mut out, m.as_str());
            },
            Error::Fold { path, source } => {
                push_str(&mut out, path.as_str());
                push_str(&mut out, ": ");
                let m = source.message();
                push_str(&mut out, m.as_str());
            },
            Error::RecordTooLarge { len } => {
                push_str(&mut out, "record of ");
                push_decimal(&mut out, *len as u64);
                push_str(&mut out, " bytes is past the frame limit");
            },
            Error::NoStateHome => push_str(&mut out, "neither XDG_STATE_HOME nor HOME names an absolute directory"),
            Error::RootCollision { dir, occupant, arrival } => {
                push_str(&mut out, dir.as_str());
                push_str(&mut out, " already holds state for ");
                push_str(&mut out, occupant.as_str());
                push_str(&mut out, ", not ");
                push_str(&mut out, arrival.as_str());
            },
        }
        assert(out@ =~= spec_error_message(*self));
        out
    }
}

// ---------------------------------------------------------------------------
// Where state lives
// ---------------------------------------------------------------------------

/// The state home: `XDG_STATE_HOME` when it is absolute, else
/// `$HOME/.local/state` when `HOME` is.
pub open spec fn spec_state_home_from(xdg: Option<Seq<char>>, home: Option<Seq<char>>) -> Option<Seq<char>> {
    if xdg is Some && spec_is_absolute(xdg->0) {
        Some(xdg->0)
    } else if home is Some && spec_is_absolute(home->0) {
        Some(spec_path_join(spec_path_join(home->0, ".local"@), "state"@))
    } else {
        None
    }
}

/// The state home, from the values of `XDG_STATE_HOME` and `HOME`.
pub fn state_home_from(xdg: Option<String>, home: Option<String>) -> (r: Result<String, Error>)
    ensures
        match spec_state_home_from(
            match xdg {
                Some(x) => Some(x@),
                None => None,
            },
            match home {
                Some(h) => Some(h@),
                None => None,
            },
        ) {
            Some(dir) => r matches Ok(d) && d@ == dir,
            None => r == Err::<String, Error>(Error::NoStateHome),
        },
{
    match xdg {
        Some(dir) => {
            if is_absolute(dir.as_str()) {
                return Ok(dir);
            }
        },
        None => {},
    }
    match home {
        Some(h) => {
            if is_absolute(h.as_str()) {
                let local = path_join(h.as_str(), ".local");
                return Ok(path_join(local.as_str(), "state"));
            }
        },
        None => {},
    }
    Err(Error::NoStateHome)
}

/// FNV-1a's 64-bit offset basis.
pub open spec fn fnv_offset() -> u64 {
    0xcbf2_9ce4_8422_2325
}

/// FNV-1a's 64-bit prime.
pub open spec fn fnv_prime() -> u64 {
    0x0000_0100_0000_01b3
}

/// FNV-1a over `bytes`.
pub open spec fn spec_fnv(bytes: Seq<u8>) -> u64
    decreases bytes.len(),
{
    if bytes.len() == 0 {
        fnv_offset()
    } else {
        (spec_fnv(bytes.drop_last()) ^ (bytes.last() as u64)).wrapping_mul(fnv_prime())
    }
}

/// The lowercase hex digit for `d`.
pub open spec fn hex_digit(d: u64) -> char {
    if d < 10 {
        ((d + 48) as u8) as char
    } else {
        ((d + 87) as u8) as char
    }
}

/// `h` as sixteen lowercase hex digits, most significant first.
pub open spec fn spec_hex16(h: u64) -> Seq<char> {
    Seq::new(16, |i: int| hex_digit((h >> ((60 - 4 * i) as u64)) & 0xf))
}

/// A stable name for `bytes`: FNV-1a, as sixteen hex digits. Stable across
/// processes and builds, which is all a directory name needs.
pub fn key(bytes: &[u8]) -> (r: String)
    ensures
        r@ == spec_hex16(spec_fnv(bytes@)),
{
    let mut hash: u64 = 0xcbf2_9ce4_8422_2325;
    let mut i: usize = 0;
    while i < bytes.len()
        invariant
            i <= bytes.len(),
            hash == spec_fnv(bytes@.take(i as int)),
        decreases bytes.len() - i,
    {
        assert(bytes@.take(i + 1).drop_last() =~= bytes@.take(i as int));
        hash = (hash ^ (bytes[i] as u64)).wrapping_mul(0x0000_0100_0000_01b3);
        i = i + 1;
    }
    assert(bytes@.take(i as int) =~= bytes@);
    let mut out = String::new();
    let mut k: u64 = 0;
    while k < 16
        invariant
            k <= 16,
            out@ == spec_hex16(hash).take(k as int),
        decreases 16 - k,
    {
        let shift: u64 = 60 - 4 * k;
        let nibble = (hash >> shift) & 0xf;
        assert(nibble < 16) by (bit_vector)
            requires
                nibble == (hash >> shift) & 0xf,
        ;
        let c = if nibble < 10 {
            ((nibble + 48) as u8) as char
        } else {
            ((nibble + 87) as u8) as char
        };
        assert(c == spec_hex16(hash)[k as int]);
        push_char(&mut out, c);
        k = k + 1;
        assert(out@ =~= spec_hex16(hash).take(k as int));
    }
    out
}

/// The key of a canonical workspace root.
pub fn workspace_key(canonical_root: &str) -> (r: String)
    ensures
        r@ == spec_hex16(spec_fnv(vstd::utf8::encode_utf8(canonical_root@))),
{
    key(canonical_root.as_bytes())
}

/// Where a workspace's state lives under a state home:
/// `<state_home>/phosphor/<workspace key>`. Creating it and claiming it are
/// the host's.
pub fn workspace_dir(state_home: &str, canonical_root: &str) -> (r: String)
    ensures
        r@ == spec_path_join(
            spec_path_join(state_home@, "phosphor"@),
            spec_hex16(spec_fnv(vstd::utf8::encode_utf8(canonical_root@))),
        ),
{
    let base = path_join(state_home, "phosphor");
    let k = workspace_key(canonical_root);
    path_join(base.as_str(), k.as_str())
}

/// Where a file's undo journal lives: `<workspace_dir>/undo/<key>.journal`.
pub fn undo_path(workspace_dir: &str, canonical_file: &str) -> (r: String)
    ensures
        r@ == spec_path_join(
            spec_path_join(workspace_dir@, "undo"@),
            spec_hex16(spec_fnv(vstd::utf8::encode_utf8(canonical_file@))) + ".journal"@,
        ),
{
    let dir = path_join(workspace_dir, "undo");
    let mut name = key(canonical_file.as_bytes());
    push_str(&mut name, ".journal");
    path_join(dir.as_str(), name.as_str())
}

/// Records below this many never trigger a compaction.
pub const COMPACT_FLOOR: u64 = 256;

/// Whether a log should compact: at least [`COMPACT_FLOOR`] records, and at
/// least twice as many as the last compaction left (or as one, if it left
/// none). Doubling keeps compaction's cost amortised.
pub fn should_compact(records: u64, compacted_at: u64) -> (r: bool)
    ensures
        r == (records >= COMPACT_FLOOR && records >= 2 * (if compacted_at == 0 { 1 } else { compacted_at })),
{
    let floor = if compacted_at == 0 { 1 } else { compacted_at };
    records >= COMPACT_FLOOR && records / 2 >= floor
}


// ---------------------------------------------------------------------------
// The root marker
// ---------------------------------------------------------------------------

/// What a workspace directory's root marker says about who owns it.
#[derive(Debug, PartialEq, Eq)]
pub enum Marker {
    /// No marker, or an empty one: nobody has claimed the directory.
    Unclaimed,
    /// This root's own marker.
    Mine,
    /// Another root's marker: a collision.
    Occupied(String),
}

/// What `String::from_utf8_lossy` makes of some bytes.
pub uninterp spec fn lossy(bytes: Seq<u8>) -> Seq<char>;

/// Calls `String::from_utf8_lossy`. Claimed: the text depends on the bytes
/// alone, and is the bytes decoded where they are UTF-8. What replaces an
/// invalid sequence is left unsaid.
#[verifier::external_body]
fn lossy_text(bytes: &Vec<u8>) -> (r: String)
    ensures
        r@ == lossy(bytes@),
        vstd::utf8::valid_utf8(bytes@) ==> r@ == vstd::utf8::decode_utf8(bytes@),
{
    String::from_utf8_lossy(bytes).into_owned()
}

/// Who owns a workspace directory, given its marker's bytes (if the marker
/// exists) and this root: an empty marker is not an occupant, and another
/// root's marker is a collision.
pub fn marker_verdict(marker: Option<Vec<u8>>, mine: &str) -> (r: Marker)
    ensures
        match marker {
            None => r is Unclaimed,
            Some(b) => if b@.len() == 0 {
                r is Unclaimed
            } else if lossy(b@) == mine@ {
                r is Mine
            } else {
                r matches Marker::Occupied(o) && o@ == lossy(b@)
            },
        },
{
    match marker {
        None => Marker::Unclaimed,
        Some(bytes) => {
            if bytes.len() == 0 {
                Marker::Unclaimed
            } else {
                let occupant = lossy_text(&bytes);
                if str_eq(occupant.as_str(), mine) {
                    Marker::Mine
                } else {
                    Marker::Occupied(occupant)
                }
            }
        },
    }
}

} // verus!
