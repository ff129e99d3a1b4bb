//! The wire format of single values: how a byte, a flag, an unsigned number
//! and a 32-bit word are laid out in a message, and how they are read back
//! from a buffer that may hold only the beginning of a message.
use vstd::prelude::*;

verus! {

/// What reading a value from position `pos` of a buffer comes to.
pub enum Parse<T> {
    /// The value, and the position behind its last byte.
    Done { value: T, next: int },
    /// The buffer ends before the value does.
    Incomplete,
    /// A tag names no variant.
    Invalid,
    /// A byte cannot stand where it stands.
    Failed,
}

/// The result of a read as the executable readers return it.
#[derive(Debug, PartialEq, Eq)]
pub enum Parsed<T> {
    /// The value, and the position behind its last byte.
    Done { value: T, next: usize },
    /// The buffer ends before the value does.
    Incomplete,
    /// A tag names no variant.
    Invalid,
    /// A byte cannot stand where it stands.
    Failed,
}

impl<T> Parsed<T> {
    /// The same result with its position as a mathematical integer.
    pub open spec fn lift(self) -> Parse<T> {
        match self {
            Parsed::Done { value, next } => Parse::Done { value, next: next as int },
            Parsed::Incomplete => Parse::Incomplete,
            Parsed::Invalid => Parse::Invalid,
            Parsed::Failed => Parse::Failed,
        }
    }
}

/// Upper bound, exclusive, of a 16-bit number.
pub open spec fn limit_u16() -> int {
    0x1_0000
}

/// Upper bound, exclusive, of a 32-bit number.
pub open spec fn limit_u32() -> int {
    0x1_0000_0000
}

/// Upper bound, exclusive, of a 64-bit number.
pub open spec fn limit_u64() -> int {
    0x1_0000_0000_0000_0000
}

/// One byte.
pub open spec fn parse_byte(s: Seq<u8>, pos: int) -> Parse<u8> {
    if 0 <= pos < s.len() {
        Parse::Done { value: s[pos], next: pos + 1 }
    } else {
        Parse::Incomplete
    }
}

/// A flag: one byte, 0 for false and 1 for true.
pub open spec fn parse_bool(s: Seq<u8>, pos: int) -> Parse<bool> {
    if 0 <= pos < s.len() {
        if s[pos] == 0 {
            Parse::Done { value: false, next: pos + 1 }
        } else if s[pos] == 1 {
            Parse::Done { value: true, next: pos + 1 }
        } else {
            Parse::Failed
        }
    } else {
        Parse::Incomplete
    }
}

/// The signed value of a byte in two's complement.
pub open spec fn byte_to_i8(b: u8) -> i8 {
    if b < 128 {
        b as i8
    } else {
        (b - 256) as i8
    }
}

/// The byte that holds a signed value in two's complement.
pub open spec fn i8_to_byte(v: i8) -> u8 {
    if v >= 0 {
        v as u8
    } else {
        (v + 256) as u8
    }
}

/// A signed byte.
pub open spec fn parse_i8(s: Seq<u8>, pos: int) -> Parse<i8> {
    if 0 <= pos < s.len() {
        Parse::Done { value: byte_to_i8(s[pos]), next: pos + 1 }
    } else {
        Parse::Incomplete
    }
}

/// An unsigned number below `limit`, seven bits to a byte, the lowest seven
/// first; every byte but the last has its top bit set. The encoding need not
/// be the shortest. A number that would reach `limit`, or bytes that go on
/// where no more can follow, cannot stand.
pub open spec fn parse_varint(s: Seq<u8>, pos: int, limit: int) -> Parse<int>
    decreases limit,
{
    if 0 <= pos < s.len() {
        let b = s[pos] as int;
        if b < 128 {
            if b < limit {
                Parse::Done { value: b, next: pos + 1 }
            } else {
                Parse::Failed
            }
        } else if limit <= 128 {
            Parse::Failed
        } else {
            match parse_varint(s, pos + 1, limit / 128) {
                Parse::Done { value, next } => Parse::Done { value: b - 128 + 128 * value, next },
                Parse::Incomplete => Parse::Incomplete,
                Parse::Invalid => Parse::Invalid,
                Parse::Failed => Parse::Failed,
            }
        }
    } else {
        Parse::Incomplete
    }
}

/// The value of four bytes, lowest first.
pub open spec fn le_word(b0: u8, b1: u8, b2: u8, b3: u8) -> u32 {
    (b0 + b1 * 0x100 + b2 * 0x1_0000 + b3 * 0x100_0000) as u32
}

/// A 32-bit word: four bytes, lowest first.
pub open spec fn parse_word(s: Seq<u8>, pos: int) -> Parse<u32> {
    if 0 <= pos && pos + 4 <= s.len() {
        Parse::Done { value: le_word(s[pos], s[pos + 1], s[pos + 2], s[pos + 3]), next: pos + 4 }
    } else {
        Parse::Incomplete
    }
}

/// `count` bytes, one after the other.
pub open spec fn parse_bytes(s: Seq<u8>, pos: int, count: int) -> Parse<Seq<u8>> {
    if 0 <= pos && 0 <= count && pos + count <= s.len() {
        Parse::Done { value: s.subrange(pos, pos + count), next: pos + count }
    } else {
        Parse::Incomplete
    }
}

/// The bytes of an unsigned number: seven bits to a byte, the lowest seven
/// first, in as few bytes as hold it.
pub open spec fn enc_varint(v: int) -> Seq<u8>
    decreases v,
{
    if v < 128 {
        seq![v as u8]
    } else {
        seq![(v % 128 + 128) as u8] + enc_varint(v / 128)
    }
}

/// The byte of a flag.
pub open spec fn enc_bool(b: bool) -> Seq<u8> {
    seq![if b { 1u8 } else { 0u8 }]
}

/// The four bytes of a 32-bit word, lowest first.
pub open spec fn enc_word(w: u32) -> Seq<u8> {
    seq![
        (w % 0x100) as u8,
        (w / 0x100 % 0x100) as u8,
        (w / 0x1_0000 % 0x100) as u8,
        (w / 0x100_0000 % 0x100) as u8,
    ]
}

/// Whether a limit is one that numbers are written for: dividing it by 128
/// again and again passes through whole multiples of 128 only.
pub open spec fn limit_ok(limit: int) -> bool
    decreases limit,
{
    limit >= 1 && (limit <= 128 || (limit % 128 == 0 && limit_ok(limit / 128)))
}

/// Reads one byte at `pos`.
pub fn read_byte(bytes: &[u8], pos: usize) -> (r: Parsed<u8>)
    ensures
        r.lift() == parse_byte(bytes@, pos as int),
{
    if pos < bytes.len() {
        Parsed::Done { value: bytes[pos], next: pos + 1 }
    } else {
        Parsed::Incomplete
    }
}

/// Reads a flag at `pos`.
pub fn read_bool(bytes: &[u8], pos: usize) -> (r: Parsed<bool>)
    ensures
        r.lift() == parse_bool(bytes@, pos as int),
{
    if pos < bytes.len() {
        let b: u8 = bytes[pos];
        if b == 0 {
            Parsed::Done { value: false, next: pos + 1 }
        } else if b == 1 {
            Parsed::Done { value: true, next: pos + 1 }
        } else {
            Parsed::Failed
        }
    } else {
        Parsed::Incomplete
    }
}

/// The signed value of a byte.
pub fn i8_of_byte(b: u8) -> (v: i8)
    ensures
        v == byte_to_i8(b),
{
    if b < 128 {
        b as i8
    } else {
        ((b as i16) - 256) as i8
    }
}

/// The byte of a signed value.
pub fn byte_of_i8(v: i8) -> (b: u8)
    ensures
        b == i8_to_byte(v),
{
    if v >= 0 {
        v as u8
    } else {
        ((v as i16) + 256) as u8
    }
}

/// Reads a signed byte at `pos`.
pub fn read_i8(bytes: &[u8], pos: usize) -> (r: Parsed<i8>)
    ensures
        r.lift() == parse_i8(bytes@, pos as int),
{
    if pos < bytes.len() {
        Parsed::Done { value: i8_of_byte(bytes[pos]), next: pos + 1 }
    } else {
        Parsed::Incomplete
    }
}

/// Whether an executable result of reading a number is the result `p`.
pub open spec fn number_is(r: Parsed<u64>, p: Parse<int>) -> bool {
    match p {
        Parse::Done { value, next } => r == (Parsed::Done {
            value: value as u64,
            next: next as usize,
        }) && 0 <= value <= u64::MAX && 0 <= next <= usize::MAX,
        Parse::Incomplete => r is Incomplete,
        Parse::Invalid => r is Invalid,
        Parse::Failed => r is Failed,
    }
}

/// Whether an executable result of reading a 16-bit number is the result `p`.
pub open spec fn u16_is(r: Parsed<u16>, p: Parse<int>) -> bool {
    match p {
        Parse::Done { value, next } => r == (Parsed::Done {
            value: value as u16,
            next: next as usize,
        }) && 0 <= value <= u16::MAX && 0 <= next <= usize::MAX,
        Parse::Incomplete => r is Incomplete,
        Parse::Invalid => r is Invalid,
        Parse::Failed => r is Failed,
    }
}

/// Whether an executable result of reading a 32-bit number is the result `p`.
pub open spec fn u32_is(r: Parsed<u32>, p: Parse<int>) -> bool {
    match p {
        Parse::Done { value, next } => r == (Parsed::Done {
            value: value as u32,
            next: next as usize,
        }) && 0 <= value <= u32::MAX && 0 <= next <= usize::MAX,
        Parse::Incomplete => r is Incomplete,
        Parse::Invalid => r is Invalid,
        Parse::Failed => r is Failed,
    }
}

/// Reads an unsigned number below `limit` at `pos`.
pub(crate) fn read_varint(bytes: &[u8], pos: usize, limit: u128) -> (r: Parsed<u64>)
    requires
        limit <= 0x1_0000_0000_0000_0000,
    ensures
        number_is(r, parse_varint(bytes@, pos as int, limit as int)),
        parse_varint(bytes@, pos as int, limit as int) matches Parse::Done { value, next } ==> 0
            <= value < limit && pos < next <= bytes@.len(),
    decreases limit,
{
    if pos < bytes.len() {
        let b: u8 = bytes[pos];
        if b < 128 {
            if (b as u128) < limit {
                Parsed::Done { value: b as u64, next: pos + 1 }
            } else {
                Parsed::Failed
            }
        } else if limit <= 128 {
            Parsed::Failed
        } else {
            match read_varint(bytes, pos + 1, limit / 128) {
                Parsed::Done { value, next } => {
                    assert(128 * (limit as int / 128) <= limit);
                    Parsed::Done { value: (b as u64 - 128) + 128 * value, next }
                },
                Parsed::Incomplete => Parsed::Incomplete,
                Parsed::Invalid => Parsed::Invalid,
                Parsed::Failed => Parsed::Failed,
            }
        }
    } else {
        Parsed::Incomplete
    }
}

/// Reads a 16-bit number at `pos`.
pub fn read_u16(bytes: &[u8], pos: usize) -> (r: Parsed<u16>)
    ensures
        u16_is(r, parse_varint(bytes@, pos as int, limit_u16())),
        r matches Parsed::Done { next, .. } ==> pos < next <= bytes@.len(),
{
    match read_varint(bytes, pos, 0x1_0000) {
        Parsed::Done { value, next } => Parsed::Done { value: value as u16, next },
        Parsed::Incomplete => Parsed::Incomplete,
        Parsed::Invalid => Parsed::Invalid,
        Parsed::Failed => Parsed::Failed,
    }
}

/// Reads a 32-bit number at `pos`.
pub fn read_u32(bytes: &[u8], pos: usize) -> (r: Parsed<u32>)
    ensures
        u32_is(r, parse_varint(bytes@, pos as int, limit_u32())),
        r matches Parsed::Done { next, .. } ==> pos < next <= bytes@.len(),
{
    match read_varint(bytes, pos, 0x1_0000_0000) {
        Parsed::Done { value, next } => Parsed::Done { value: value as u32, next },
        Parsed::Incomplete => Parsed::Incomplete,
        Parsed::Invalid => Parsed::Invalid,
        Parsed::Failed => Parsed::Failed,
    }
}

/// Reads a 64-bit number at `pos`.
pub fn read_u64(bytes: &[u8], pos: usize) -> (r: Parsed<u64>)
    ensures
        number_is(r, parse_varint(bytes@, pos as int, limit_u64())),
        r matches Parsed::Done { next, .. } ==> pos < next <= bytes@.len(),
{
    read_varint(bytes, pos, 0x1_0000_0000_0000_0000)
}

/// Reads a 32-bit word at `pos`.
pub fn read_word(bytes: &[u8], pos: usize) -> (r: Parsed<u32>)
    ensures
        r.lift() == parse_word(bytes@, pos as int),
{
    if bytes.len() >= 4 && pos <= bytes.len() - 4 {
        let value: u32 = (bytes[pos] as u32) + (bytes[pos + 1] as u32) * 0x100 + (bytes[pos
            + 2] as u32) * 0x1_0000 + (bytes[pos + 3] as u32) * 0x100_0000;
        Parsed::Done { value, next: pos + 4 }
    } else {
        Parsed::Incomplete
    }
}

/// Appends the bytes of an unsigned number.
pub fn write_varint(out: &mut Vec<u8>, v: u64)
    ensures
        final(out)@ == old(out)@ + enc_varint(v as int),
{
    let mut rest: u64 = v;
    while rest >= 128
        invariant
            out@ + enc_varint(rest as int) == old(out)@ + enc_varint(v as int),
        decreases rest,
    {
        let ghost before = out@;
        out.push((rest % 128 + 128) as u8);
        assert(before.push((rest % 128 + 128) as u8) + enc_varint(rest as int / 128) =~= before
            + enc_varint(rest as int));
        rest = rest / 128;
    }
    let ghost before = out@;
    out.push(rest as u8);
    assert(before.push(rest as u8) =~= before + enc_varint(rest as int));
}

/// Appends the byte of a flag.
pub fn write_bool(out: &mut Vec<u8>, b: bool)
    ensures
        final(out)@ == old(out)@ + enc_bool(b),
{
    let ghost before = out@;
    out.push(if b { 1 } else { 0 });
    assert(out@ =~= before + enc_bool(b));
}

/// Appends the four bytes of a 32-bit word, lowest first.
pub fn write_word(out: &mut Vec<u8>, w: u32)
    ensures
        final(out)@ == old(out)@ + enc_word(w),
{
    let ghost before = out@;
    out.push((w % 0x100) as u8);
    out.push((w / 0x100 % 0x100) as u8);
    out.push((w / 0x1_0000 % 0x100) as u8);
    out.push((w / 0x100_0000 % 0x100) as u8);
    assert(out@ =~= before + enc_word(w));
}

/// The limits that numbers are written for are well formed.
pub proof fn lemma_limits_ok()
    ensures
        limit_ok(limit_u16()),
        limit_ok(limit_u32()),
        limit_ok(limit_u64()),
{
    assert(limit_ok(4));
    assert(limit_ok(0x200));
    assert(limit_ok(0x1_0000));
    assert(limit_ok(0x10));
    assert(limit_ok(0x800));
    assert(limit_ok(0x4_0000));
    assert(limit_ok(0x200_0000));
    assert(limit_ok(0x1_0000_0000));
    assert(limit_ok(2));
    assert(limit_ok(0x100));
    assert(limit_ok(0x8000));
    assert(limit_ok(0x40_0000));
    assert(limit_ok(0x2000_0000));
    assert(limit_ok(0x10_0000_0000));
    assert(limit_ok(0x800_0000_0000));
    assert(limit_ok(0x4_0000_0000_0000));
    assert(limit_ok(0x200_0000_0000_0000));
    assert(limit_ok(0x1_0000_0000_0000_0000));
}

/// Reading back what was written: where the bytes of `v` stand at `pos`, a
/// read at `pos` gives `v` and ends behind them.
pub proof fn lemma_varint_roundtrip(s: Seq<u8>, pos: int, v: int, limit: int)
    requires
        limit_ok(limit),
        0 <= v < limit,
        0 <= pos,
        pos + enc_varint(v).len() <= s.len(),
        s.subrange(pos, pos + enc_varint(v).len()) == enc_varint(v),
    ensures
        parse_varint(s, pos, limit) == (Parse::Done {
            value: v,
            next: pos + enc_varint(v).len(),
        }),
    decreases v,
{
    let e = enc_varint(v);
    assert(s[pos] == s.subrange(pos, pos + e.len())[0]);
    if v >= 128 {
        let tail = enc_varint(v / 128);
        assert(e =~= seq![(v % 128 + 128) as u8] + tail);
        assert(e.len() == 1 + tail.len());
        assert(s.subrange(pos + 1, pos + 1 + tail.len()) =~= tail) by {
            assert forall|i: int| 0 <= i < tail.len() implies s.subrange(
                pos + 1,
                pos + 1 + tail.len(),
            )[i] == tail[i] by {
                assert(s.subrange(pos, pos + e.len())[i + 1] == e[i + 1]);
            }
        }
        lemma_varint_roundtrip(s, pos + 1, v / 128, limit / 128);
    }
}

/// Cutting the buffer short: where a read at `pos` succeeds and ends at
/// `next`, the same read on the first `k` bytes gives the same result if
/// `k` reaches `next`, and otherwise finds the buffer too short.
pub proof fn lemma_varint_truncate(s: Seq<u8>, pos: int, limit: int, k: int)
    requires
        parse_varint(s, pos, limit) is Done,
        0 <= k <= s.len(),
    ensures
        pos < parse_varint(s, pos, limit)->next <= s.len(),
        k >= parse_varint(s, pos, limit)->next ==> parse_varint(s.take(k), pos, limit)
            == parse_varint(s, pos, limit),
        k < parse_varint(s, pos, limit)->next ==> parse_varint(s.take(k), pos, limit)
            is Incomplete,
    decreases limit,
{
    let b = s[pos] as int;
    if b >= 128 {
        lemma_varint_truncate(s, pos + 1, limit / 128, k);
    }
}

} // verus!
