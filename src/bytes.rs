//! Little-endian field readers over an immutable byte buffer.
//!
//! The `read_*` readers either yield a value together with the position just
//! past it, or fail: `Truncated` when fewer bytes remain than the field needs,
//! `InvalidUtf8` for text that is not UTF-8. The `*_at` readers take a
//! position that the caller has already checked. None reads out of bounds.
use vstd::prelude::*;
use vstd::utf8::{decode_utf8, valid_utf8};
use crate::codec::{base58, base58_of, utf8_text};

verus! {

broadcast use vstd::array::group_array_axioms;

/// Why an instruction's payload yielded no event.
#[derive(Debug, Clone, Copy, PartialEq, Eq, Structural)]
pub enum DecodeError {
    /// Fewer bytes remain than a field requires.
    Truncated,
    /// A length-prefixed text field is not UTF-8.
    InvalidUtf8,
    /// A decoded enum tag names no known variant.
    UnmappedEnumVariant,
    /// The account list is shorter than the instruction's role schema.
    AccountIndexOutOfRange,
    /// Neither a CPI echo nor a data log carries the expected event.
    MissingSource,
    /// The tag names no record of this table.
    Unrecognized,
}

/// A 32-byte public key.
#[derive(Debug, Clone, Copy)]
pub struct Pubkey(pub [u8; 32]);

impl Pubkey {
    /// The key's conventional text form: its base-58 encoding.
    pub fn to_string(&self) -> (r: String)
        ensures
            r@ == base58_of(self.0@),
    {
        base58(&self.0)
    }
}

/// The key whose bytes are `s` (which must hold exactly 32 bytes).
pub open spec fn key_of(s: Seq<u8>) -> Pubkey {
    Pubkey(choose|a: [u8; 32]| a@ == s)
}

/// The key stored at `pos`.
pub open spec fn spec_key_at(s: Seq<u8>, pos: int) -> Pubkey {
    key_of(s.subrange(pos, pos + 32))
}

pub open spec fn spec_u8_at(s: Seq<u8>, pos: int) -> u8 {
    s[pos]
}

pub open spec fn spec_u16_at(s: Seq<u8>, pos: int) -> u16 {
    (s[pos] as int + 256 * s[pos + 1] as int) as u16
}

pub open spec fn spec_u32_at(s: Seq<u8>, pos: int) -> u32 {
    (s[pos] as int + 0x100 * s[pos + 1] as int + 0x1_0000 * s[pos + 2] as int + 0x100_0000
        * s[pos + 3] as int) as u32
}

pub open spec fn spec_u64_at(s: Seq<u8>, pos: int) -> u64 {
    (spec_u32_at(s, pos) as int + 0x1_0000_0000 * spec_u32_at(s, pos + 4) as int) as u64
}

/// An `i64` is the two's-complement reading of the same eight bytes.
pub open spec fn spec_i64_at(s: Seq<u8>, pos: int) -> i64 {
    spec_u64_at(s, pos) as i64
}

pub fn u8_at(data: &[u8], pos: usize) -> (r: u8)
    requires
        pos + 1 <= data@.len(),
    ensures
        r == spec_u8_at(data@, pos as int),
{
    data[pos]
}

pub fn u16_at(data: &[u8], pos: usize) -> (r: u16)
    requires
        pos + 2 <= data@.len(),
    ensures
        r == spec_u16_at(data@, pos as int),
{
    data[pos] as u16 + 256 * (data[pos + 1] as u16)
}

pub fn u32_at(data: &[u8], pos: usize) -> (r: u32)
    requires
        pos + 4 <= data@.len(),
    ensures
        r == spec_u32_at(data@, pos as int),
{
    data[pos] as u32 + 0x100 * (data[pos + 1] as u32) + 0x1_0000 * (data[pos + 2] as u32)
        + 0x100_0000 * (data[pos + 3] as u32)
}

pub fn u64_at(data: &[u8], pos: usize) -> (r: u64)
    requires
        pos + 8 <= data@.len(),
    ensures
        r == spec_u64_at(data@, pos as int),
{
    // `n` is a `usize`, so a position below it is one too.
    let n = data.len();
    assert(pos + 4 < n);
    let lo = u32_at(data, pos);
    let hi = u32_at(data, pos + 4);
    lo as u64 + 0x1_0000_0000 * (hi as u64)
}

pub fn i64_at(data: &[u8], pos: usize) -> (r: i64)
    requires
        pos + 8 <= data@.len(),
    ensures
        r == spec_i64_at(data@, pos as int),
{
    u64_at(data, pos) as i64
}

pub fn key_at(data: &[u8], pos: usize) -> (r: Pubkey)
    requires
        pos + 32 <= data@.len(),
    ensures
        r == spec_key_at(data@, pos as int),
{
    // `n` is a `usize`, so a position below it is one too.
    let n = data.len();
    let mut a = [0u8; 32];
    let mut i: usize = 0;
    while i < 32
        invariant
            i <= 32,
            pos + 32 <= data@.len(),
            n == data@.len(),
            forall|j: int| 0 <= j < i ==> a@[j] == data@[pos + j],
        decreases 32 - i,
    {
        a[i] = data[pos + i];
        i = i + 1;
    }
    let ghost sub = data@.subrange(pos as int, pos + 32);
    assert(a@ =~= sub);
    assert(exists|x: [u8; 32]| x@ == sub);
    let ghost c = key_of(sub).0;
    assert(c@ == sub);
    assert(a =~= c);
    Pubkey(a)
}

/// A length-prefixed text field at `pos`: a `u32` byte count, then that many
/// bytes of UTF-8. Gives the text and the position just past it.
pub open spec fn spec_string_at(s: Seq<u8>, pos: int) -> Result<(Seq<char>, int), DecodeError> {
    if pos < 0 || pos + 4 > s.len() {
        Err(DecodeError::Truncated)
    } else {
        let end = pos + 4 + spec_u32_at(s, pos) as int;
        if end > s.len() {
            Err(DecodeError::Truncated)
        } else if !valid_utf8(s.subrange(pos + 4, end)) {
            Err(DecodeError::InvalidUtf8)
        } else {
            Ok((decode_utf8(s.subrange(pos + 4, end)), end))
        }
    }
}

pub fn read_u8(data: &[u8], pos: usize) -> (r: Result<(u8, usize), DecodeError>)
    ensures
        r is Ok <==> pos + 1 <= data@.len(),
        r matches Ok((v, end)) ==> v == spec_u8_at(data@, pos as int) && end == pos + 1,
        r matches Err(e) ==> e == DecodeError::Truncated,
{
    if pos >= data.len() {
        return Err(DecodeError::Truncated);
    }
    Ok((u8_at(data, pos), pos + 1))
}

pub fn read_u64(data: &[u8], pos: usize) -> (r: Result<(u64, usize), DecodeError>)
    ensures
        r is Ok <==> pos + 8 <= data@.len(),
        r matches Ok((v, end)) ==> v == spec_u64_at(data@, pos as int) && end == pos + 8,
        r matches Err(e) ==> e == DecodeError::Truncated,
{
    if data.len() < 8 || pos > data.len() - 8 {
        return Err(DecodeError::Truncated);
    }
    Ok((u64_at(data, pos), pos + 8))
}

pub fn read_pubkey(data: &[u8], pos: usize) -> (r: Result<(Pubkey, usize), DecodeError>)
    ensures
        r is Ok <==> pos + 32 <= data@.len(),
        r matches Ok((v, end)) ==> v == spec_key_at(data@, pos as int) && end == pos + 32,
        r matches Err(e) ==> e == DecodeError::Truncated,
{
    if data.len() < 32 || pos > data.len() - 32 {
        return Err(DecodeError::Truncated);
    }
    Ok((key_at(data, pos), pos + 32))
}

pub fn read_string(data: &[u8], pos: usize) -> (r: Result<(String, usize), DecodeError>)
    ensures
        r matches Ok((t, end)) ==> spec_string_at(data@, pos as int) == Ok::<
            (Seq<char>, int),
            DecodeError,
        >((t@, end as int)),
        r matches Err(e) ==> spec_string_at(data@, pos as int) == Err::<(Seq<char>, int), DecodeError>(e),
{
    let n = data.len();
    if n < 4 || pos > n - 4 {
        return Err(DecodeError::Truncated);
    }
    let len = u32_at(data, pos) as usize;
    if len > n - (pos + 4) {
        return Err(DecodeError::Truncated);
    }
    let end = pos + 4 + len;
    let body = vstd::slice::slice_subrange(data, pos + 4, end);
    match utf8_text(body) {
        Some(t) => Ok((t.to_owned(), end)),
        None => Err(DecodeError::InvalidUtf8),
    }
}

/// Whether the eight bytes at `pos` are `tag`.
pub open spec fn spec_tag_at(s: Seq<u8>, pos: int, tag: Seq<u8>) -> bool {
    0 <= pos && pos + 8 <= s.len() && s.subrange(pos, pos + 8) == tag
}

/// The bytes from `pos` to the end.
pub open spec fn spec_rest(s: Seq<u8>, pos: int) -> Seq<u8> {
    s.subrange(pos, s.len() as int)
}

pub fn tag_at(data: &[u8], pos: usize, tag: &[u8; 8]) -> (r: bool)
    ensures
        r == spec_tag_at(data@, pos as int, tag@),
{
    let n = data.len();
    if n < 8 || pos > n - 8 {
        return false;
    }
    let mut i: usize = 0;
    while i < 8
        invariant
            i <= 8,
            pos + 8 <= n,
            n == data@.len(),
            forall|j: int| 0 <= j < i ==> data@[pos + j] == tag@[j],
        decreases 8 - i,
    {
        if data[pos + i] != tag[i] {
            assert(data@.subrange(pos as int, pos + 8)[i as int] != tag@[i as int]);
            return false;
        }
        i = i + 1;
    }
    assert(data@.subrange(pos as int, pos + 8) =~= tag@);
    true
}

pub fn rest(data: &[u8], pos: usize) -> (r: &[u8])
    requires
        pos <= data@.len(),
    ensures
        r@ == spec_rest(data@, pos as int),
{
    vstd::slice::slice_subrange(data, pos, data.len())
}

/// Whether `k` is the key whose bytes are `id`.
pub fn is_key(k: &Pubkey, id: &[u8; 32]) -> (r: bool)
    ensures
        r == (k.0@ == id@),
{
    let mut i: usize = 0;
    while i < 32
        invariant
            i <= 32,
            forall|j: int| 0 <= j < i ==> k.0@[j] == id@[j],
        decreases 32 - i,
    {
        if k.0[i] != id[i] {
            return false;
        }
        i = i + 1;
    }
    assert(k.0@ =~= id@);
    true
}

} // verus!
