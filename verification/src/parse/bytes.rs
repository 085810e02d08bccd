//! Reading little-endian numbers and NUL-terminated names out of a buffer.

use super::event::{signed32, to_signed32};
use byteorder::{ByteOrder, LittleEndian};
use vstd::prelude::*;
use vstd::slice::slice_subrange;
use vstd::utf8::{decode_utf8, valid_utf8};

verus! {

/// The number spelled by the two bytes at `at`, least significant first.
pub open spec fn le_u16(bytes: Seq<u8>, at: int) -> int {
    bytes[at] + 0x100 * bytes[at + 1]
}

/// The number spelled by the four bytes at `at`, least significant first.
pub open spec fn le_u32(bytes: Seq<u8>, at: int) -> int {
    bytes[at] + 0x100 * bytes[at + 1] + 0x1_0000 * bytes[at + 2] + 0x100_0000 * bytes[at + 3]
}

/// The number spelled by the eight bytes at `at`, least significant first.
pub open spec fn le_u64(bytes: Seq<u8>, at: int) -> int {
    le_u32(bytes, at) + 0x1_0000_0000 * le_u32(bytes, at + 4)
}

/// The four bytes at `at` as a signed number in two's complement.
pub open spec fn le_i32(bytes: Seq<u8>, at: int) -> int {
    signed32(le_u32(bytes, at) as u32) as int
}

/// `byteorder`'s `LittleEndian::read_u16`: the number that the first two
/// bytes of `buf` spell, least significant first. It panics on a shorter
/// slice, which `requires` leaves out.
#[verifier::external_body]
fn read_u16(buf: &[u8]) -> (r: u16)
    requires
        buf@.len() >= 2,
    ensures
        r == le_u16(buf@, 0),
{
    LittleEndian::read_u16(buf)
}

pub fn u8_at(bytes: &[u8], at: usize) -> (r: u8)
    requires
        at < bytes@.len(),
    ensures
        r == bytes@[at as int],
{
    bytes[at]
}

pub fn u16_at(bytes: &[u8], at: usize) -> (r: u16)
    requires
        at + 2 <= bytes@.len(),
    ensures
        r == le_u16(bytes@, at as int),
{
    let len: usize = bytes.len();
    assert(at + 2 <= len);
    read_u16(slice_subrange(bytes, at, at + 2))
}

pub fn u32_at(bytes: &[u8], at: usize) -> (r: u32)
    requires
        at + 4 <= bytes@.len(),
    ensures
        r == le_u32(bytes@, at as int),
{
    let len: usize = bytes.len();
    assert(at + 4 <= len);
    let low: u32 = u16_at(bytes, at) as u32;
    let high: u32 = u16_at(bytes, at + 2) as u32;
    low + 0x1_0000 * high
}

pub fn u64_at(bytes: &[u8], at: usize) -> (r: u64)
    requires
        at + 8 <= bytes@.len(),
    ensures
        r == le_u64(bytes@, at as int),
{
    let len: usize = bytes.len();
    assert(at + 8 <= len);
    let low: u64 = u32_at(bytes, at) as u64;
    let high: u64 = u32_at(bytes, at + 4) as u64;
    low + 0x1_0000_0000 * high
}

pub fn i32_at(bytes: &[u8], at: usize) -> (r: i32)
    requires
        at + 4 <= bytes@.len(),
    ensures
        r == le_i32(bytes@, at as int),
{
    to_signed32(u32_at(bytes, at))
}

/// The index of the first zero byte of `bytes` at or after `from`, or the
/// length of `bytes` if there is none.
pub open spec fn first_nul(bytes: Seq<u8>, from: int) -> int
    decreases bytes.len() - from,
{
    if from < 0 || from >= bytes.len() {
        bytes.len() as int
    } else if bytes[from] == 0 {
        from
    } else {
        first_nul(bytes, from + 1)
    }
}

/// `first_nul` finds a place from `from` on, at which, if it is inside
/// `bytes`, a zero stands, and before which none does.
pub proof fn lemma_first_nul(bytes: Seq<u8>, from: int)
    requires
        0 <= from <= bytes.len(),
    ensures
        from <= first_nul(bytes, from) <= bytes.len(),
        first_nul(bytes, from) < bytes.len() ==> bytes[first_nul(bytes, from)] == 0,
        forall|j: int| from <= j < first_nul(bytes, from) ==> bytes[j] != 0,
    decreases bytes.len() - from,
{
    if from < bytes.len() && bytes[from] != 0 {
        lemma_first_nul(bytes, from + 1);
    }
}

/// The end of the NUL-terminated name that starts at `from` and lies
/// before `end`.
pub fn name_end(bytes: &[u8], from: usize, end: usize) -> (r: usize)
    requires
        from <= end <= bytes@.len(),
    ensures
        from <= r <= end,
        r == first_nul(bytes@.subrange(0, end as int), from as int),
{
    let ghost window = bytes@.subrange(0, end as int);
    let mut i: usize = from;
    while i < end && bytes[i] != 0
        invariant
            from <= i <= end <= bytes@.len(),
            window == bytes@.subrange(0, end as int),
            first_nul(window, from as int) == first_nul(window, i as int),
        decreases end - i,
    {
        i += 1;
    }
    i
}

/// What `String::from_utf8_lossy` makes of `bytes`.
pub uninterp spec fn utf8_lossy(bytes: Seq<u8>) -> Seq<char>;

/// `String::from_utf8_lossy`, made an owned `String`: `bytes` read as
/// UTF-8, each malformed sequence replaced by U+FFFD. Well-formed UTF-8 is
/// decoded as it stands.
#[verifier::external_body]
fn string_from_utf8_lossy(bytes: &[u8]) -> (s: String)
    ensures
        s@ == utf8_lossy(bytes@),
        valid_utf8(bytes@) ==> s@ == decode_utf8(bytes@),
{
    String::from_utf8_lossy(bytes).into_owned()
}

/// The bytes of `bytes` from `from` up to `to` as text.
pub fn text_at(bytes: &[u8], from: usize, to: usize) -> (s: String)
    requires
        from <= to <= bytes@.len(),
    ensures
        s@ == utf8_lossy(bytes@.subrange(from as int, to as int)),
        valid_utf8(bytes@.subrange(from as int, to as int)) ==> s@ == decode_utf8(
            bytes@.subrange(from as int, to as int),
        ),
{
    string_from_utf8_lossy(slice_subrange(bytes, from, to))
}

} // verus!
