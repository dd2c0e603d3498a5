//! Decimal integer parsing with the grammar of `str::parse` for `u32` and `i32`:
//! an optional sign followed by one or more ASCII digits, with the value in range.
use vstd::prelude::*;
use crate::text::chars_of;

verus! {

pub open spec fn is_digit(c: char) -> bool {
    '0' <= c && c <= '9'
}

pub open spec fn digit_value(c: char) -> int {
    c as int - '0' as int
}

pub open spec fn all_digits(s: Seq<char>) -> bool {
    forall|i: int| 0 <= i < s.len() ==> is_digit(#[trigger] s[i])
}

/// The value of a string of decimal digits, most significant first.
pub open spec fn decimal_value(s: Seq<char>) -> nat
    decreases s.len(),
{
    if s.len() == 0 {
        0
    } else {
        (decimal_value(s.drop_last()) * 10 + digit_value(s.last())) as nat
    }
}

/// A non-empty run of digits whose value does not exceed `limit`.
pub open spec fn digits_within(s: Seq<char>, limit: nat) -> bool {
    s.len() > 0 && all_digits(s) && decimal_value(s) <= limit
}

/// What `str::parse::<u32>` gives back: an optional `+` followed by digits.
pub open spec fn spec_parse_u32(s: Seq<char>) -> Option<u32> {
    let d = if s.len() > 0 && s[0] == '+' { s.drop_first() } else { s };
    if digits_within(d, u32::MAX as nat) {
        Some(decimal_value(d) as u32)
    } else {
        None
    }
}

/// What `str::parse::<i32>` gives back: an optional `+` or `-` followed by digits.
pub open spec fn spec_parse_i32(s: Seq<char>) -> Option<i32> {
    if s.len() > 0 && s[0] == '-' {
        let d = s.drop_first();
        if digits_within(d, 0x8000_0000) {
            Some((0 - decimal_value(d)) as i32)
        } else {
            None
        }
    } else {
        let d = if s.len() > 0 && s[0] == '+' { s.drop_first() } else { s };
        if digits_within(d, i32::MAX as nat) {
            Some(decimal_value(d) as i32)
        } else {
            None
        }
    }
}

proof fn lemma_decimal_value_grows(s: Seq<char>, k: int)
    requires
        all_digits(s),
        0 <= k <= s.len(),
    ensures
        decimal_value(s.take(k)) <= decimal_value(s),
    decreases s.len() - k,
{
    if k < s.len() {
        lemma_decimal_value_grows(s, k + 1);
        assert(s.take(k + 1).drop_last() =~= s.take(k));
        assert(is_digit(s[k]));
    } else {
        assert(s.take(k) =~= s);
    }
}

/// Reads `chars[lo..hi]` as a run of digits of value at most `limit`.
fn parse_digits(chars: &Vec<char>, lo: usize, hi: usize, limit: u64) -> (r: Option<u64>)
    requires
        lo <= hi <= chars.len(),
        limit <= u32::MAX as u64 + 1,
    ensures
        r is Some <==> digits_within(chars@.subrange(lo as int, hi as int), limit as nat),
        r matches Some(v) ==> v == decimal_value(chars@.subrange(lo as int, hi as int)),
{
    let ghost d = chars@.subrange(lo as int, hi as int);
    if lo == hi {
        return None;
    }
    let mut acc: u64 = 0;
    let mut i: usize = lo;
    while i < hi
        invariant
            lo <= i <= hi <= chars.len(),
            d == chars@.subrange(lo as int, hi as int),
            all_digits(d.take(i - lo)),
            acc == decimal_value(d.take(i - lo)),
            acc <= limit,
            limit <= u32::MAX as u64 + 1,
        decreases hi - i,
    {
        let c = chars[i];
        assert(d.take(i + 1 - lo).drop_last() =~= d.take(i - lo));
        assert(d[i - lo] == c);
        if !('0' <= c && c <= '9') {
            assert(!all_digits(d));
            return None;
        }
        let digit = (c as u32 - '0' as u32) as u64;
        acc = acc * 10 + digit;
        i = i + 1;
        if acc > limit {
            proof {
                assert(all_digits(d.take(i - lo)));
                if all_digits(d) {
                    lemma_decimal_value_grows(d, i - lo);
                }
            }
            return None;
        }
    }
    assert(d.take(i - lo) =~= d);
    Some(acc)
}

/// Parses `chars[lo..hi]` as `str::parse::<u32>` parses a string.
pub fn parse_u32_chars(chars: &Vec<char>, lo: usize, hi: usize) -> (r: Option<u32>)
    requires
        lo <= hi <= chars.len(),
    ensures
        r == spec_parse_u32(chars@.subrange(lo as int, hi as int)),
{
    let ghost s = chars@.subrange(lo as int, hi as int);
    let start: usize = if lo < hi && chars[lo] == '+' { lo + 1 } else { lo };
    assert(chars@.subrange(start as int, hi as int) =~= (if s.len() > 0 && s[0] == '+' { s.drop_first() } else { s }));
    match parse_digits(chars, start, hi, 0xffff_ffff) {
        Some(v) => Some(v as u32),
        None => None,
    }
}

/// Parses `chars[lo..hi]` as `str::parse::<i32>` parses a string.
pub fn parse_i32_chars(chars: &Vec<char>, lo: usize, hi: usize) -> (r: Option<i32>)
    requires
        lo <= hi <= chars.len(),
    ensures
        r == spec_parse_i32(chars@.subrange(lo as int, hi as int)),
{
    let ghost s = chars@.subrange(lo as int, hi as int);
    if lo < hi && chars[lo] == '-' {
        assert(chars@.subrange(lo + 1, hi as int) =~= s.drop_first());
        match parse_digits(chars, lo + 1, hi, 0x8000_0000) {
            Some(v) => Some((0 - (v as i64)) as i32),
            None => None,
        }
    } else {
        let start: usize = if lo < hi && chars[lo] == '+' { lo + 1 } else { lo };
        assert(chars@.subrange(start as int, hi as int) =~= (if s.len() > 0 && s[0] == '+' { s.drop_first() } else { s }));
        match parse_digits(chars, start, hi, 0x7fff_ffff) {
            Some(v) => Some(v as i32),
            None => None,
        }
    }
}

/// Parses an unsigned 32-bit decimal number as `str::parse::<u32>` does.
pub fn parse_u32(s: &str) -> (r: Option<u32>)
    ensures
        r == spec_parse_u32(s@),
{
    let chars = chars_of(s);
    assert(chars@.subrange(0, chars@.len() as int) =~= s@);
    parse_u32_chars(&chars, 0, chars.len())
}

/// Parses a signed 32-bit decimal number as `str::parse::<i32>` does.
pub fn parse_i32(s: &str) -> (r: Option<i32>)
    ensures
        r == spec_parse_i32(s@),
{
    let chars = chars_of(s);
    assert(chars@.subrange(0, chars@.len() as int) =~= s@);
    parse_i32_chars(&chars, 0, chars.len())
}

/// The digit character for `d` (0 to 9).
pub open spec fn digit_char(d: nat) -> char {
    (d + '0' as nat) as char
}

/// The decimal digits of `n`, most significant first, without leading zeros.
pub open spec fn decimal_digits(n: nat) -> Seq<char>
    decreases n,
{
    if n < 10 {
        seq![digit_char(n)]
    } else {
        decimal_digits(n / 10).push(digit_char(n % 10))
    }
}

/// How `i32::to_string` writes `n`: a `-` for a negative number, then the digits.
pub open spec fn spec_format_i32(n: i32) -> Seq<char> {
    if n < 0 {
        seq!['-'] + decimal_digits((0 - n) as nat)
    } else {
        decimal_digits(n as nat)
    }
}

pub proof fn lemma_decimal_digits(n: nat)
    ensures
        decimal_digits(n).len() > 0,
        all_digits(decimal_digits(n)),
        decimal_value(decimal_digits(n)) == n,
        decimal_digits(n)[0] != '+' && decimal_digits(n)[0] != '-',
    decreases n,
{
    let s = decimal_digits(n);
    if n < 10 {
        assert(decimal_value(s) == decimal_value(s.drop_last()) * 10 + digit_value(s.last()));
        assert(s.drop_last() =~= Seq::<char>::empty());
    } else {
        lemma_decimal_digits(n / 10);
        let p = decimal_digits(n / 10);
        assert(s.drop_last() =~= p);
        assert(s[0] == p[0]);
        assert forall|i: int| 0 <= i < s.len() implies is_digit(#[trigger] s[i]) by {
            if i < p.len() {
                assert(s[i] == p[i]);
            }
        }
    }
}

/// Numbers below 10, 100, 1000, 10000 have at most 1, 2, 3, 4 digits.
pub proof fn lemma_decimal_digits_short(n: nat)
    ensures
        n < 10 ==> decimal_digits(n).len() == 1,
        n < 100 ==> decimal_digits(n).len() <= 2,
        n < 1000 ==> decimal_digits(n).len() <= 3,
        n < 10000 ==> decimal_digits(n).len() <= 4,
    decreases n,
{
    if n >= 10 {
        lemma_decimal_digits_short(n / 10);
    }
}

/// A number written out by `spec_format_i32` reads back as the same number.
pub proof fn lemma_format_parse_roundtrip(n: i32)
    ensures
        spec_parse_i32(spec_format_i32(n)) == Some(n),
{
    let s = spec_format_i32(n);
    if n < 0 {
        let m = (0 - n) as nat;
        lemma_decimal_digits(m);
        assert(s.drop_first() =~= decimal_digits(m));
    } else {
        lemma_decimal_digits(n as nat);
    }
}

/// Writes `n` in decimal, as `i32::to_string` does.
pub fn format_i32(n: i32) -> (r: String)
    ensures
        r@ == spec_format_i32(n),
{
    let negative = n < 0;
    let magnitude: u64 = if negative { (0 - (n as i64)) as u64 } else { n as u64 };
    let ghost m = magnitude as nat;
    let mut v: u64 = magnitude;
    let mut digits: Vec<char> = Vec::new();
    while v >= 10
        invariant
            decimal_digits(m) == decimal_digits(v as nat) + digits@,
        decreases v,
    {
        let d = v % 10;
        let c = ((d as u32) + ('0' as u32)) as u8 as char;
        assert(c == digit_char(d as nat));
        assert(decimal_digits(v as nat) == decimal_digits((v / 10) as nat).push(c));
        digits.insert(0, c);
        assert(decimal_digits(m) =~= decimal_digits((v / 10) as nat) + digits@);
        v = v / 10;
    }
    let c = ((v as u32) + ('0' as u32)) as u8 as char;
    assert(seq![c] == decimal_digits(v as nat));
    let mut out = String::new();
    if negative {
        crate::text::push_char(&mut out, '-');
    }
    crate::text::push_char(&mut out, c);
    crate::text::push_range(&mut out, &digits, 0, digits.len());
    assert(digits@.subrange(0, digits@.len() as int) =~= digits@);
    proof {
        if negative {
            assert(out@ =~= seq!['-'] + decimal_digits(m));
        } else {
            assert(out@ =~= decimal_digits(m));
        }
    }
    out
}

} // verus!
