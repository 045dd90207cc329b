//! Unsigned base-128 varints, the length prefix of every message on the
//! Kapacitor UDF wire.
//!
//! A value is written as groups of seven bits, least significant group
//! first; every byte but the last has its high bit set.  A reader takes at
//! most ten bytes: ten continuation bytes are "too long", and a tenth byte
//! that would carry bits beyond the 64th is an "overflow".  A reader accepts
//! non-minimal encodings (such as `[0x80, 0x00]` for zero).
use vstd::prelude::*;

verus! {

/// The most bytes a reader takes for one varint.
pub const MAX_VARINT_LEN: usize = 10;

/// Why a byte sequence is not a varint.
#[derive(Debug, Clone, Copy, PartialEq, Eq, Structural)]
pub enum VarintError {
    /// The bytes ended before the last byte of the varint.
    Incomplete,
    /// The tenth byte carries bits beyond the 64th ("varint overflows a 64-bit integer").
    Overflow,
    /// Ten bytes all had their continuation bit set ("varint too long").
    TooLong,
}

impl VarintError {
    /// The message that a reader reports for this error.
    pub fn message(&self) -> (s: String)
        ensures
            s@ == self.message_spec(),
    {
        match self {
            VarintError::Incomplete => String::from_str("failed to fill whole buffer"),
            VarintError::Overflow => String::from_str("varint overflows a 64-bit integer"),
            VarintError::TooLong => String::from_str("varint too long"),
        }
    }

    pub open spec fn message_spec(&self) -> Seq<char> {
        match self {
            VarintError::Incomplete => "failed to fill whole buffer"@,
            VarintError::Overflow => "varint overflows a 64-bit integer"@,
            VarintError::TooLong => "varint too long"@,
        }
    }
}

/// `128^n`: the weight of the `n`-th seven-bit group.
pub open spec fn group_scale(n: nat) -> nat
    decreases n,
{
    if n == 0 {
        1
    } else {
        128 * group_scale((n - 1) as nat)
    }
}

/// The number that the seven-bit groups of `s` stand for, first byte lowest.
pub open spec fn group_value(s: Seq<u8>) -> nat
    decreases s.len(),
{
    if s.len() == 0 {
        0
    } else {
        (s[0] % 128) as nat + 128 * group_value(s.drop_first())
    }
}

/// Whether a byte announces that more bytes follow.
pub open spec fn is_continuation(b: u8) -> bool {
    b >= 0x80
}

/// The bytes that a writer emits for `v`.
pub open spec fn encode_spec(v: nat) -> Seq<u8>
    decreases v,
{
    if v < 128 {
        seq![v as u8]
    } else {
        seq![(v % 128 + 128) as u8] + encode_spec(v / 128)
    }
}

/// What a reader makes of `s` once it has looked at the bytes before index `i`
/// and found continuation bits on all of them.
pub open spec fn scan(s: Seq<u8>, i: nat) -> Result<(nat, nat), VarintError>
    decreases 10 - i,
{
    if i >= 10 {
        Err(VarintError::TooLong)
    } else if i >= s.len() {
        Err(VarintError::Incomplete)
    } else if !is_continuation(s[i as int]) {
        if i == 9 && s[i as int] > 1 {
            Err(VarintError::Overflow)
        } else {
            Ok((group_value(s.take(i + 1 as int)), i + 1))
        }
    } else {
        scan(s, i + 1)
    }
}

/// What a reader makes of the bytes `s`: the value and the number of bytes
/// it took, or why it failed.  `Incomplete` means that more bytes are needed.
pub open spec fn decode_spec(s: Seq<u8>) -> Result<(nat, nat), VarintError> {
    scan(s, 0)
}

/// The value of `n` bytes is the value of `n - 1` bytes plus the last group at its weight.
pub proof fn lemma_group_value_push(s: Seq<u8>, b: u8)
    ensures
        group_value(s.push(b)) == group_value(s) + (b % 128) as nat * group_scale(s.len()),
    decreases s.len(),
{
    if s.len() == 0 {
        assert(s.push(b).drop_first() =~= Seq::<u8>::empty());
        assert(group_value(Seq::<u8>::empty()) == 0);
        assert(s.push(b)[0] == b);
        assert(group_scale(0) == 1);
    } else {
        assert(s.push(b).drop_first() =~= s.drop_first().push(b));
        assert(s.push(b)[0] == s[0]);
        lemma_group_value_push(s.drop_first(), b);
        let t = s.drop_first();
        let x = (b % 128) as nat;
        assert(group_scale(s.len()) == 128 * group_scale(t.len()));
        assert(128 * (group_value(t) + x * group_scale(t.len())) == 128 * group_value(t) + x * (
        128 * group_scale(t.len()))) by (nonlinear_arith);
    }
}

/// `n` groups stand for less than `128^n`.
pub proof fn lemma_group_value_bound(s: Seq<u8>)
    ensures
        group_value(s) < group_scale(s.len()),
    decreases s.len(),
{
    if s.len() > 0 {
        lemma_group_value_bound(s.drop_first());
    }
}

/// Looking at a byte with its continuation bit set moves the reader on by one.
proof fn lemma_scan_skip(s: Seq<u8>, i: nat, k: nat)
    requires
        i <= k,
        k < 10,
        k <= s.len(),
        forall|j: int| i <= j < k ==> is_continuation(#[trigger] s[j]),
    ensures
        scan(s, i) == scan(s, k),
    decreases k - i,
{
    if i < k {
        lemma_scan_skip(s, i + 1, k);
    }
}

/// Once a reader has decided on a prefix, more bytes behind it change nothing.
pub proof fn lemma_scan_prefix(s: Seq<u8>, n: nat, i: nat)
    requires
        n <= s.len(),
        scan(s.take(n as int), i) != Err::<(nat, nat), VarintError>(VarintError::Incomplete),
    ensures
        scan(s, i) == scan(s.take(n as int), i),
    decreases 10 - i,
{
    let t = s.take(n as int);
    if i < 10 && i < t.len() {
        assert(t[i as int] == s[i as int]);
        if !is_continuation(s[i as int]) {
            assert(t.take(i + 1 as int) =~= s.take(i + 1 as int));
        } else {
            lemma_scan_prefix(s, n, i + 1);
        }
    }
}

/// The shape of what a writer emits.
pub proof fn lemma_encode_shape(v: nat)
    ensures
        encode_spec(v).len() >= 1,
        group_value(encode_spec(v)) == v,
        forall|j: int| 0 <= j < encode_spec(v).len() - 1 ==> is_continuation(#[trigger] encode_spec(v)[j]),
        !is_continuation(encode_spec(v).last()),
    decreases v,
{
    if v >= 128 {
        lemma_encode_shape(v / 128);
        let e = encode_spec(v);
        let r = encode_spec(v / 128);
        assert(e == seq![(v % 128 + 128) as u8] + r);
        assert(e.drop_first() =~= r);
        assert(((v % 128 + 128) as u8) % 128 == v % 128);
        assert forall|j: int| 0 <= j < e.len() - 1 implies is_continuation(#[trigger] e[j]) by {
            if j > 0 {
                assert(e[j] == r[j - 1]);
            }
        }
        assert(e.last() == r.last());
    } else {
        let e = encode_spec(v);
        assert(e.drop_first() =~= Seq::<u8>::empty());
        assert(group_value(Seq::<u8>::empty()) == 0);
    }
}

/// A value below `128^k` takes at most `k` bytes.
proof fn lemma_encode_len_bound(v: nat, k: nat)
    requires
        k >= 1,
        v < group_scale(k),
    ensures
        encode_spec(v).len() <= k,
    decreases k,
{
    if v >= 128 {
        assert(k >= 2) by {
            if k == 1 {
                assert(group_scale(1) == 128 * group_scale(0));
            }
        }
        assert(group_scale(k) == 128 * group_scale((k - 1) as nat));
        assert(v / 128 < group_scale((k - 1) as nat));
        lemma_encode_len_bound(v / 128, (k - 1) as nat);
    }
}

/// When a value below `2 * 128^k` takes `k + 1` bytes, its last byte is 0 or 1.
proof fn lemma_encode_last_small(v: nat, k: nat)
    requires
        v < 2 * group_scale(k),
        encode_spec(v).len() == k + 1,
    ensures
        encode_spec(v).last() <= 1,
    decreases k,
{
    if k == 0 {
        if v >= 128 {
            lemma_encode_shape(v / 128);
        }
    } else {
        if v < 128 {
        } else {
            let r = encode_spec(v / 128);
            assert(group_scale(k) == 128 * group_scale((k - 1) as nat));
            assert(v / 128 < 2 * group_scale((k - 1) as nat));
            assert(encode_spec(v).last() == r.last());
            lemma_encode_last_small(v / 128, (k - 1) as nat);
        }
    }
}

/// `128^9 == 2^63` and `128^10 > 2^64`.
pub proof fn lemma_scale_values()
    ensures
        group_scale(9) == 0x8000_0000_0000_0000,
        group_scale(10) == 0x40_0000_0000_0000_0000,
{
    reveal_with_fuel(group_scale, 11);
}

/// Every 64-bit value is written in at most ten bytes, and a tenth byte is 0 or 1.
pub proof fn lemma_encode_fits(v: u64)
    ensures
        1 <= encode_spec(v as nat).len() <= MAX_VARINT_LEN,
        encode_spec(v as nat).len() == MAX_VARINT_LEN ==> encode_spec(v as nat).last() <= 1,
{
    lemma_scale_values();
    lemma_encode_shape(v as nat);
    lemma_encode_len_bound(v as nat, 10);
    if encode_spec(v as nat).len() == 10 {
        lemma_encode_last_small(v as nat, 9);
    }
}

/// Law: a writer emits the shortest encoding: `n` bytes for a value with
/// `128^(n-1) <= v < 128^n` (one byte for zero, which is `[0]`), and the last
/// byte of a non-zero value is not zero.
pub proof fn lemma_encode_minimal(v: nat)
    ensures
        v < group_scale(encode_spec(v).len()),
        encode_spec(v).len() > 1 ==> v >= group_scale((encode_spec(v).len() - 1) as nat),
        v == 0 ==> encode_spec(v) == seq![0u8],
        v != 0 ==> encode_spec(v).last() != 0,
    decreases v,
{
    let e = encode_spec(v);
    if v < 128 {
        assert(group_scale(1) == 128 * group_scale(0));
        assert(e.len() == 1);
    } else {
        let q = v / 128;
        let r = encode_spec(q);
        lemma_encode_minimal(q);
        lemma_encode_shape(q);
        assert(e == seq![(v % 128 + 128) as u8] + r);
        assert(e.len() == r.len() + 1);
        assert(e.last() == r.last());
        assert(group_scale(e.len()) == 128 * group_scale(r.len()));
        if r.len() > 1 {
            assert(group_scale(r.len()) == 128 * group_scale((r.len() - 1) as nat));
        } else {
            assert(group_scale(1) == 128 * group_scale(0));
        }
    }
}

/// Law: a reader gives back the value that a writer wrote, and takes exactly
/// the bytes that the writer emitted, whatever follows them.
pub proof fn lemma_decode_encode(v: u64, rest: Seq<u8>)
    ensures
        decode_spec(encode_spec(v as nat) + rest) == Ok::<(nat, nat), VarintError>(
            (v as nat, encode_spec(v as nat).len()),
        ),
{
    let e = encode_spec(v as nat);
    let s = e + rest;
    lemma_encode_fits(v);
    lemma_encode_shape(v as nat);
    let n = e.len();
    assert forall|j: int| 0 <= j < n - 1 implies is_continuation(#[trigger] s[j]) by {
        assert(s[j] == e[j]);
    }
    lemma_scan_skip(s, 0, (n - 1) as nat);
    assert(s[n - 1] == e.last());
    assert(s.take(n as int) =~= e);
}

/// Law: a decoder fed the bytes of a written varint one at a time asks for
/// more until the last byte, where it gives back the written value.
pub proof fn lemma_decoder_steps_on_encoding(v: u64, k: nat)
    requires
        k < encode_spec(v as nat).len(),
    ensures
        step_spec(decode_spec(encode_spec(v as nat).take(k + 1 as int))) == (if k + 1 < encode_spec(
            v as nat,
        ).len() {
            DecodeStep::NeedMore
        } else {
            DecodeStep::Done(v)
        }),
{
    let e = encode_spec(v as nat);
    lemma_encode_fits(v);
    lemma_encode_shape(v as nat);
    let t = e.take(k + 1 as int);
    if k + 1 < e.len() {
        assert forall|j: int| 0 <= j < k + 1 implies is_continuation(#[trigger] t[j]) by {
            assert(t[j] == e[j]);
        }
        lemma_scan_skip(t, 0, k + 1);
    } else {
        lemma_decode_encode(v, Seq::<u8>::empty());
        assert(e + Seq::<u8>::empty() =~= e);
        assert(t =~= e);
    }
}

/// A reader that takes a varint one byte at a time, as bytes arrive from a stream.
///
/// It holds the bytes taken so far, all of them continuation bytes, and the
/// value of their groups.
pub struct UvarintDecoder {
    value: u64,
    scale: u64,
    count: usize,
    seen: Ghost<Seq<u8>>,
}

/// What a reader does after one more byte.
#[derive(Debug, Clone, Copy, PartialEq, Eq, Structural)]
pub enum DecodeStep {
    /// The varint goes on: feed the next byte.
    NeedMore,
    /// The varint ended with this byte; it stands for the value.
    Done(u64),
    /// The varint cannot be read.
    Failed(VarintError),
}

/// The step that a reader reports for a byte sequence that ends with the byte just taken.
pub open spec fn step_spec(r: Result<(nat, nat), VarintError>) -> DecodeStep {
    match r {
        Ok((v, _)) => DecodeStep::Done(v as u64),
        Err(VarintError::Incomplete) => DecodeStep::NeedMore,
        Err(e) => DecodeStep::Failed(e),
    }
}

impl View for UvarintDecoder {
    type V = Seq<u8>;

    closed spec fn view(&self) -> Seq<u8> {
        self.seen@
    }
}

impl UvarintDecoder {
    /// The decoder is between bytes: what it has taken so far is the start of a varint.
    pub closed spec fn wf(&self) -> bool {
        &&& self.count == self.seen@.len()
        &&& self.count <= 9
        &&& forall|j: int| 0 <= j < self.seen@.len() ==> is_continuation(#[trigger] self.seen@[j])
        &&& self.value == group_value(self.seen@)
        &&& self.scale == group_scale(self.count as nat)
    }

    /// Bytes that a well-formed decoder has taken are the start of a varint.
    pub proof fn lemma_wf_incomplete(&self)
        requires
            self.wf(),
        ensures
            decode_spec(self@) == Err::<(nat, nat), VarintError>(VarintError::Incomplete),
            self@.len() < MAX_VARINT_LEN,
    {
        lemma_scan_skip(self@, 0, self@.len());
    }

    /// A decoder that has taken nothing.
    pub fn new() -> (d: Self)
        ensures
            d.wf(),
            d@ == Seq::<u8>::empty(),
    {
        UvarintDecoder { value: 0, scale: 1, count: 0, seen: Ghost(Seq::empty()) }
    }

    /// Takes one more byte.
    ///
    /// The step is what a reader makes of all bytes taken so far followed by
    /// `b`; while the varint goes on, the decoder remembers `b`.
    pub fn push(&mut self, b: u8) -> (step: DecodeStep)
        requires
            old(self).wf(),
        ensures
            final(self).wf(),
            step == step_spec(decode_spec(old(self)@.push(b))),
            step is NeedMore ==> final(self)@ == old(self)@.push(b),
            step is Done ==> (decode_spec(old(self)@.push(b)) matches Ok((_, n)) && n == old(self)@.len() + 1),
            !(step is NeedMore) ==> final(self)@ == old(self)@,
    {
        let ghost s = self.seen@;
        let ghost s2 = s.push(b);
        let c = self.count;
        proof {
            lemma_scale_values();
            lemma_group_value_bound(s);
            lemma_group_value_push(s, b);
            assert(forall|j: int| 0 <= j < s.len() ==> s2[j] == s[j]);
            lemma_scan_skip(s2, 0, c as nat);
            assert(s2[c as int] == b);
            assert(s2.take(c + 1) =~= s2);
            group_scale_monotone(c as nat, 9);
        }
        let low: u64 = (b & 0x7f) as u64;
        assert(b & 0x7f == b % 128) by (bit_vector);
        if b < 0x80 {
            if c == 9 && b > 1 {
                DecodeStep::Failed(VarintError::Overflow)
            } else {
                proof {
                    if c == 9 {
                        assert(low <= 1);
                    } else {
                        assert(self.scale <= 0x0100_0000_0000_0000u64) by {
                            assert(group_scale(9) == 128 * group_scale(8));
                            group_scale_monotone(c as nat, 8);
                        }
                        assert(low < 128);
                    }
                    assert(low * self.scale <= 0x8000_0000_0000_0000) by (nonlinear_arith)
                        requires
                            (c == 9 && low <= 1 && self.scale == 0x8000_0000_0000_0000) || (low
                                < 128 && self.scale <= 0x0100_0000_0000_0000u64),
                    ;
                }
                let v = self.value + low * self.scale;
                DecodeStep::Done(v)
            }
        } else if c == 9 {
            DecodeStep::Failed(VarintError::TooLong)
        } else {
            proof {
                assert(self.scale <= 0x0100_0000_0000_0000u64) by {
                    assert(group_scale(9) == 128 * group_scale(8));
                    group_scale_monotone(c as nat, 8);
                }
                assert(low * self.scale < 128 * self.scale) by (nonlinear_arith)
                    requires
                        low < 128,
                        self.scale >= 1,
                ;
                assert(group_scale(c as nat + 1) == 128 * group_scale(c as nat));
                lemma_scan_skip(s2, 0, c as nat + 1);
            }
            self.value = self.value + low * self.scale;
            self.scale = self.scale * 128;
            self.count = c + 1;
            self.seen = Ghost(s2);
            DecodeStep::NeedMore
        }
    }
}

/// Writes `value` as a varint.
pub fn encode_uvarint(value: u64) -> (bytes: Vec<u8>)
    ensures
        bytes@ == encode_spec(value as nat),
        1 <= bytes@.len() <= MAX_VARINT_LEN,
{
    proof {
        lemma_encode_fits(value);
    }
    let mut out: Vec<u8> = Vec::new();
    let mut v: u64 = value;
    loop
        invariant
            out@ + encode_spec(v as nat) == encode_spec(value as nat),
            1 <= encode_spec(value as nat).len() <= MAX_VARINT_LEN,
        decreases v,
    {
        let byte: u8 = (v & 0x7f) as u8;
        let next: u64 = v >> 7;
        assert(v & 0x7f == v % 128) by (bit_vector);
        assert(v >> 7 == v / 128) by (bit_vector);
        if next != 0 {
            assert((v & 0x7f) as u8 | 0x80 == (v % 128 + 128) as u8) by (bit_vector);
            let ghost before = out@;
            out.push(byte | 0x80);
            assert(encode_spec(v as nat) == seq![(v % 128 + 128) as u8] + encode_spec(next as nat));
            assert(before + encode_spec(v as nat) =~= out@ + encode_spec(next as nat));
            v = next;
        } else {
            let ghost before = out@;
            out.push(byte);
            assert(encode_spec(v as nat) == seq![v as u8]);
            assert(before + encode_spec(v as nat) =~= out@);
            return out;
        }
    }
}

/// Reads a varint from the start of `bytes`: its value and how many bytes it took.
pub fn decode_uvarint(bytes: &[u8]) -> (res: Result<(u64, usize), VarintError>)
    ensures
        match decode_spec(bytes@) {
            Ok((v, n)) => res == Ok::<(u64, usize), VarintError>((v as u64, n as usize)) && v
                < 0x1_0000_0000_0000_0000 && 1 <= n <= MAX_VARINT_LEN && n <= bytes@.len(),
            Err(e) => res == Err::<(u64, usize), VarintError>(e),
        },
{
    let mut decoder = UvarintDecoder::new();
    let mut i: usize = 0;
    while i < bytes.len()
        invariant
            decoder.wf(),
            i <= bytes.len(),
            decoder@ == bytes@.take(i as int),
        decreases bytes.len() - i,
    {
        let ghost before = decoder@;
        let step = decoder.push(bytes[i]);
        proof {
            assert(before.push(bytes@[i as int]) =~= bytes@.take(i + 1));
        }
        match step {
            DecodeStep::NeedMore => {},
            DecodeStep::Done(v) => {
                proof {
                    lemma_scan_prefix(bytes@, (i + 1) as nat, 0);
                    decode_done_facts(bytes@.take(i + 1));
                }
                return Ok((v, i + 1));
            },
            DecodeStep::Failed(e) => {
                proof {
                    lemma_scan_prefix(bytes@, (i + 1) as nat, 0);
                }
                return Err(e);
            },
        }
        i = i + 1;
    }
    proof {
        decoder.lemma_wf_incomplete();
        assert(bytes@.take(i as int) =~= bytes@);
    }
    Err(VarintError::Incomplete)
}

/// A successful read takes between one and ten bytes and gives a 64-bit value.
pub proof fn decode_done_facts(s: Seq<u8>)
    ensures
        decode_spec(s) matches Ok((v, n)) ==> 1 <= n <= MAX_VARINT_LEN && n <= s.len() && v
            < 0x1_0000_0000_0000_0000,
{
    decode_done_facts_from(s, 0);
}

proof fn decode_done_facts_from(s: Seq<u8>, i: nat)
    requires
        forall|j: int| 0 <= j < i ==> is_continuation(#[trigger] s[j]),
        i <= s.len(),
    ensures
        scan(s, i) matches Ok((v, n)) ==> i + 1 <= n <= MAX_VARINT_LEN && n <= s.len() && v
            < 0x1_0000_0000_0000_0000,
    decreases 10 - i,
{
    if i < 10 && i < s.len() {
        if !is_continuation(s[i as int]) {
            if !(i == 9 && s[i as int] > 1) {
                let t = s.take(i + 1 as int);
                let p = s.take(i as int);
                assert(t =~= p.push(s[i as int]));
                lemma_group_value_push(p, s[i as int]);
                lemma_group_value_bound(p);
                lemma_scale_values();
                group_scale_monotone(i, 9);
                let x = (s[i as int] % 128) as nat;
                if i == 9 {
                    assert(x <= 1);
                    assert(x * group_scale(9) <= group_scale(9)) by (nonlinear_arith)
                        requires
                            x <= 1,
                    ;
                } else {
                    group_scale_monotone(i + 1, 9);
                    assert(group_scale(i + 1) == 128 * group_scale(i));
                    assert(x * group_scale(i) < 128 * group_scale(i)) by (nonlinear_arith)
                        requires
                            x < 128,
                            group_scale(i) >= 1,
                    ;
                }
            }
        } else {
            decode_done_facts_from(s, i + 1);
        }
    }
}

/// `128^i <= 128^k` when `i <= k`.
pub proof fn group_scale_monotone(i: nat, k: nat)
    requires
        i <= k,
    ensures
        group_scale(i) <= group_scale(k),
        group_scale(i) >= 1,
    decreases k - i,
{
    if i < k {
        group_scale_monotone(i, (k - 1) as nat);
        assert(group_scale(k) == 128 * group_scale((k - 1) as nat));
    } else {
        group_scale_positive(i);
    }
}

proof fn group_scale_positive(i: nat)
    ensures
        group_scale(i) >= 1,
    decreases i,
{
    if i > 0 {
        group_scale_positive((i - 1) as nat);
    }
}

} // verus!
