//! Small verified helpers for `str` and `String` values.

use vstd::prelude::*;
use vstd::string::*;
use vstd::utf8::*;

verus! {

/// Whether two string slices hold the same characters.
pub fn str_eq(a: &str, b: &str) -> (r: bool)
    ensures
        r == (a@ == b@),
{
    let x = a.as_bytes();
    let y = b.as_bytes();
    if x.len() != y.len() {
        return false;
    }
    let mut i: usize = 0;
    while i < x.len()
        invariant
            i <= x.len(),
            x.len() == y.len(),
            x@ == encode_utf8(a@),
            y@ == encode_utf8(b@),
            forall|j: int| 0 <= j < i ==> x@[j] == y@[j],
        decreases x.len() - i,
    {
        if x[i] != y[i] {
            return false;
        }
        i += 1;
    }
    proof {
        assert(x@ =~= y@);
        encode_utf8_decode_utf8(a@);
        encode_utf8_decode_utf8(b@);
    }
    true
}


/// The numeral for the digit `d`.
pub open spec fn digit_text(d: int) -> Seq<char> {
    if d == 0 {
        "0"@
    } else if d == 1 {
        "1"@
    } else if d == 2 {
        "2"@
    } else if d == 3 {
        "3"@
    } else if d == 4 {
        "4"@
    } else if d == 5 {
        "5"@
    } else if d == 6 {
        "6"@
    } else if d == 7 {
        "7"@
    } else if d == 8 {
        "8"@
    } else {
        "9"@
    }
}

/// Each numeral is the one character that stands for its digit.
pub proof fn lemma_digit_text(d: int)
    requires
        0 <= d <= 9,
    ensures
        digit_text(d) =~= seq![(('0' as u8) + d) as u8 as char],
{
    reveal_strlit("0");
    reveal_strlit("1");
    reveal_strlit("2");
    reveal_strlit("3");
    reveal_strlit("4");
    reveal_strlit("5");
    reveal_strlit("6");
    reveal_strlit("7");
    reveal_strlit("8");
    reveal_strlit("9");
}

pub fn digit_str(d: u64) -> (s: &'static str)
    requires
        d <= 9,
    ensures
        s@ == digit_text(d as int),
{
    match d {
        0 => "0",
        1 => "1",
        2 => "2",
        3 => "3",
        4 => "4",
        5 => "5",
        6 => "6",
        7 => "7",
        8 => "8",
        _ => "9",
    }
}

/// `n` written in decimal, without leading zeros.
pub open spec fn decimal(n: nat) -> Seq<char>
    decreases n,
{
    if n < 10 {
        digit_text(n as int)
    } else {
        decimal(n / 10) + digit_text((n % 10) as int)
    }
}

/// How many digits `n` has in decimal.
pub open spec fn digit_count(n: nat) -> nat
    decreases n,
{
    if n < 10 {
        1
    } else {
        1 + digit_count(n / 10)
    }
}

/// `count` zeros.
pub open spec fn zeros(count: nat) -> Seq<char>
    decreases count,
{
    if count == 0 {
        Seq::empty()
    } else {
        zeros((count - 1) as nat) + "0"@
    }
}

/// `n` written in decimal with zeros in front to make up `width` digits.
/// A number with more digits is written in full.
pub open spec fn padded(n: nat, width: nat) -> Seq<char> {
    if digit_count(n) >= width {
        decimal(n)
    } else {
        zeros((width - digit_count(n)) as nat) + decimal(n)
    }
}

/// Appends `n` in decimal.
pub fn push_decimal(s: &mut String, n: u64)
    ensures
        final(s)@ == old(s)@ + decimal(n as nat),
    decreases n,
{
    if n >= 10 {
        push_decimal(s, n / 10);
        s.append(digit_str(n % 10));
        assert(s@ =~= old(s)@ + decimal(n as nat));
    } else {
        s.append(digit_str(n));
    }
}

pub fn count_digits(n: u64) -> (count: u64)
    ensures
        count == digit_count(n as nat),
{
    let mut count: u64 = 1;
    let mut rest: u64 = n;
    while rest >= 10
        invariant
            1 <= count,
            digit_count(n as nat) == (count - 1) + digit_count(rest as nat),
            (count - 1) + rest <= n,
        decreases rest,
    {
        rest = rest / 10;
        count += 1;
    }
    count
}

/// Appends `n` in decimal, with zeros in front to make up `width` digits.
pub fn push_padded(s: &mut String, n: u64, width: usize)
    ensures
        final(s)@ == old(s)@ + padded(n as nat, width as nat),
{
    let digits: u64 = count_digits(n);
    let mut left: usize = if digits >= width as u64 {
        0
    } else {
        width - digits as usize
    };
    let ghost missing = left;
    assert(old(s)@ + zeros(0) =~= old(s)@);
    while left > 0
        invariant
            left <= missing,
            s@ == old(s)@ + zeros((missing - left) as nat),
        decreases left,
    {
        s.append("0");
        left -= 1;
        assert(s@ =~= old(s)@ + zeros((missing - left) as nat));
    }
    push_decimal(s, n);
    assert(s@ =~= old(s)@ + padded(n as nat, width as nat));
}

/// `text` without the characters that are `unwanted`.
pub open spec fn without(text: Seq<char>, unwanted: char) -> Seq<char>
    decreases text.len(),
{
    if text.len() == 0 {
        Seq::empty()
    } else if text.last() == unwanted {
        without(text.drop_last(), unwanted)
    } else {
        without(text.drop_last(), unwanted).push(text.last())
    }
}

/// A copy of `text` that leaves out every `unwanted`. Each character is
/// looked up from the start of the text, so the time this takes grows
/// with the square of the length.
pub fn remove_all(text: &str, unwanted: char) -> (r: String)
    ensures
        r@ == without(text@, unwanted),
{
    let n: usize = text.unicode_len();
    let mut out = String::new();
    let mut i: usize = 0;
    assert(text@.take(0) =~= Seq::empty());
    while i < n
        invariant
            i <= n,
            n == text@.len(),
            out@ == without(text@.take(i as int), unwanted),
        decreases n - i,
    {
        assert(text@.take(i + 1).drop_last() =~= text@.take(i as int));
        if text.get_char(i) != unwanted {
            out.append(text.substring_char(i, i + 1));
            assert(text@.subrange(i as int, i + 1) =~= seq![text@[i as int]]);
        }
        i += 1;
    }
    assert(text@.take(n as int) =~= text@);
    out
}

/// Whether `len` of the UTF-8 bytes of `a` from `a_at` on are the same as
/// those of `b` from `b_at` on. Texts too short to have these bytes do not
/// have the same.
pub open spec fn spec_same_bytes(a: Seq<char>, a_at: int, b: Seq<char>, b_at: int, len: int)
    -> bool {
    &&& a_at + len <= encode_utf8(a).len()
    &&& b_at + len <= encode_utf8(b).len()
    &&& encode_utf8(a).subrange(a_at, a_at + len) == encode_utf8(b).subrange(b_at, b_at + len)
}

pub fn same_bytes(a: &str, a_at: usize, b: &str, b_at: usize, len: usize) -> (r: bool)
    ensures
        r == spec_same_bytes(a@, a_at as int, b@, b_at as int, len as int),
{
    let x = a.as_bytes();
    let y = b.as_bytes();
    let x_len: usize = x.len();
    let y_len: usize = y.len();
    if x_len < len || a_at > x_len - len || y_len < len || b_at > y_len - len {
        return false;
    }
    let mut i: usize = 0;
    while i < len
        invariant
            i <= len,
            x_len == x@.len(),
            y_len == y@.len(),
            a_at + len <= x_len,
            b_at + len <= y_len,
            x@ == encode_utf8(a@),
            y@ == encode_utf8(b@),
            x@.subrange(a_at as int, a_at + i) == y@.subrange(b_at as int, b_at + i),
        decreases len - i,
    {
        if x[a_at + i] != y[b_at + i] {
            assert(x@.subrange(a_at as int, a_at + len)[i as int] != y@.subrange(
                b_at as int,
                b_at + len,
            )[i as int]);
            return false;
        }
        assert(x@.subrange(a_at as int, a_at + i + 1) =~= x@.subrange(
            a_at as int,
            a_at + i,
        ).push(x@[a_at + i]));
        assert(y@.subrange(b_at as int, b_at + i + 1) =~= y@.subrange(
            b_at as int,
            b_at + i,
        ).push(y@[b_at + i]));
        i += 1;
    }
    true
}

/// Whether the UTF-8 bytes of `text` begin with those of `prefix`.
pub open spec fn spec_starts_with(text: Seq<char>, prefix: Seq<char>) -> bool {
    spec_same_bytes(text, 0, prefix, 0, encode_utf8(prefix).len() as int)
}

pub fn starts_with(text: &str, prefix: &str) -> (r: bool)
    ensures
        r == spec_starts_with(text@, prefix@),
{
    same_bytes(text, 0, prefix, 0, prefix.as_bytes().len())
}

} // verus!
