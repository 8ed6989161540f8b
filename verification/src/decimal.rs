//! Decimal integers as text: the grammar that std's `FromStr` accepts for
//! integers in radix 10, and the rendering of unsigned values.

use vstd::prelude::*;

verus! {

/// True for the ten ASCII digits `0` to `9`.
pub open spec fn is_decimal_digit(c: char) -> bool {
    48 <= (c as u32) && (c as u32) <= 57
}

/// The numeric value of an ASCII digit.
pub open spec fn digit_value(c: char) -> int {
    (c as u32) - 48
}

pub open spec fn all_decimal_digits(s: Seq<char>) -> bool {
    forall|i: int| 0 <= i < s.len() ==> is_decimal_digit(#[trigger] s[i])
}

/// The value of a string of digits read in base ten (most significant first).
pub open spec fn digits_value(s: Seq<char>) -> int
    decreases s.len(),
{
    if s.len() == 0 {
        0
    } else {
        digits_value(s.drop_last()) * 10 + digit_value(s.last())
    }
}

/// One or more digits, and their value.
pub open spec fn unsigned_digits(s: Seq<char>) -> Option<int> {
    if s.len() > 0 && all_decimal_digits(s) {
        Some(digits_value(s))
    } else {
        None
    }
}

/// The integer that `s` denotes: an optional `+` (or, when `signed`, `-`)
/// followed by one or more ASCII digits, nothing else. No whitespace and no
/// digit separators.
pub open spec fn decimal_integer(s: Seq<char>, signed: bool) -> Option<int> {
    if s.len() > 0 && s[0] == '+' {
        unsigned_digits(s.skip(1))
    } else if s.len() > 0 && s[0] == '-' && signed {
        match unsigned_digits(s.skip(1)) {
            Some(v) => Some(-v),
            None => None,
        }
    } else {
        unsigned_digits(s)
    }
}

/// What `s.parse::<i32>()` yields: the denoted integer when it fits in `i32`.
pub open spec fn spec_parse_i32(s: Seq<char>) -> Option<i32> {
    match decimal_integer(s, true) {
        Some(v) => if i32::MIN <= v && v <= i32::MAX {
            Some(v as i32)
        } else {
            None
        },
        None => None,
    }
}

/// What `s.parse::<u16>()` yields: the denoted integer when it fits in `u16`.
pub open spec fn spec_parse_u16(s: Seq<char>) -> Option<u16> {
    match decimal_integer(s, false) {
        Some(v) => if 0 <= v && v <= u16::MAX {
            Some(v as u16)
        } else {
            None
        },
        None => None,
    }
}

pub proof fn lemma_digits_value_nonneg(s: Seq<char>)
    requires
        all_decimal_digits(s),
    ensures
        digits_value(s) >= 0,
    decreases s.len(),
{
    if s.len() > 0 {
        lemma_digits_value_nonneg(s.drop_last());
    }
}

/// A prefix of a digit string is worth no more than the whole string.
pub proof fn lemma_digits_value_prefix(s: Seq<char>, k: int)
    requires
        all_decimal_digits(s),
        0 <= k <= s.len(),
    ensures
        digits_value(s.subrange(0, k)) <= digits_value(s),
    decreases s.len(),
{
    if k == s.len() {
        assert(s.subrange(0, k) =~= s);
    } else {
        let t = s.drop_last();
        assert(t.subrange(0, k) =~= s.subrange(0, k));
        lemma_digits_value_prefix(t, k);
        lemma_digits_value_nonneg(t);
    }
}

/// Reads the digits of `s` from character `start` on, giving up once the
/// value passes `limit`.
fn parse_digits(s: &str, start: usize, limit: u64) -> (res: Option<u64>)
    requires
        start <= s@.len(),
        limit <= u32::MAX,
    ensures
        res is Some <==> (unsigned_digits(s@.skip(start as int)) matches Some(v) && v <= limit),
        res matches Some(x) ==> unsigned_digits(s@.skip(start as int)) == Some(x as int),
{
    let len = s.unicode_len();
    if start == len {
        return None;
    }
    let ghost body = s@.skip(start as int);
    let mut acc: u64 = 0;
    let mut i: usize = start;
    while i < len
        invariant
            start <= i <= len,
            len == s@.len(),
            body == s@.skip(start as int),
            limit <= u32::MAX,
            acc <= limit,
            all_decimal_digits(body.subrange(0, i - start)),
            acc == digits_value(body.subrange(0, i - start)),
        decreases len - i,
    {
        let c = s.get_char(i);
        assert(body[i - start] == c);
        if !('0' <= c && c <= '9') {
            assert(!all_decimal_digits(body));
            return None;
        }
        let d = (c as u32 - 48) as u64;
        let ghost prev = body.subrange(0, i - start);
        let ghost next = body.subrange(0, i - start + 1);
        assert(next.drop_last() =~= prev);
        assert(next.last() == c);
        acc = acc * 10 + d;
        i = i + 1;
        assert(all_decimal_digits(next)) by {
            assert forall|j: int| 0 <= j < next.len() implies is_decimal_digit(#[trigger] next[j]) by {
                if j < prev.len() {
                    assert(next[j] == prev[j]);
                }
            }
        }
        if acc > limit {
            proof {
                if all_decimal_digits(body) {
                    lemma_digits_value_prefix(body, i - start);
                }
            }
            return None;
        }
    }
    assert(body.subrange(0, len - start) =~= body);
    Some(acc)
}

/// `s.parse::<i32>()`: an optional sign and decimal digits, within range.
pub fn parse_i32(s: &str) -> (res: Option<i32>)
    ensures
        res == spec_parse_i32(s@),
{
    let len = s.unicode_len();
    if len == 0 {
        return None;
    }
    let first = s.get_char(0);
    if first == '+' {
        match parse_digits(s, 1, 2147483647) {
            Some(v) => Some(v as i32),
            None => None,
        }
    } else if first == '-' {
        match parse_digits(s, 1, 2147483648) {
            Some(v) => Some((0 - (v as i64)) as i32),
            None => None,
        }
    } else {
        assert(s@.skip(0) =~= s@);
        match parse_digits(s, 0, 2147483647) {
            Some(v) => Some(v as i32),
            None => None,
        }
    }
}

/// `s.parse::<u16>()`: an optional `+` and decimal digits, within range.
pub fn parse_u16(s: &str) -> (res: Option<u16>)
    ensures
        res == spec_parse_u16(s@),
{
    let len = s.unicode_len();
    if len == 0 {
        return None;
    }
    let first = s.get_char(0);
    if first == '+' {
        match parse_digits(s, 1, 65535) {
            Some(v) => Some(v as u16),
            None => None,
        }
    } else {
        assert(s@.skip(0) =~= s@);
        match parse_digits(s, 0, 65535) {
            Some(v) => Some(v as u16),
            None => None,
        }
    }
}

/// The ASCII digit for a value in `0..10`.
pub open spec fn digit_char(d: int) -> char {
    (d + 48) as char
}

/// The shortest base-ten rendering of `n`: no sign, no leading zeros.
pub open spec fn decimal_chars(n: nat) -> Seq<char>
    decreases n,
{
    if n < 10 {
        seq![digit_char(n as int)]
    } else {
        decimal_chars(n / 10).push(digit_char((n % 10) as int))
    }
}

/// std's `String::push`: appends one character.
#[verifier::external_body]
pub(crate) fn push_char(s: &mut String, c: char)
    ensures
        final(s)@ == old(s)@.push(c),
{
    s.push(c)
}

/// Appends the decimal rendering of `n` to `s`.
pub fn push_decimal(s: &mut String, n: usize)
    ensures
        final(s)@ == old(s)@ + decimal_chars(n as nat),
    decreases n,
{
    if n >= 10 {
        push_decimal(s, n / 10);
    }
    let d: u8 = (n % 10) as u8;
    let c: char = (d + 48) as char;
    assert(c == digit_char((n % 10) as int));
    push_char(s, c);
    proof {
        if n >= 10 {
            assert(decimal_chars(n as nat) == decimal_chars((n / 10) as nat).push(c));
        } else {
            assert(decimal_chars(n as nat) =~= seq![c]);
        }
    }
    assert(s@ =~= old(s)@ + decimal_chars(n as nat));
}

/// The decimal rendering of `n` as a new string.
pub fn decimal_string(n: usize) -> (res: String)
    ensures
        res@ == decimal_chars(n as nat),
{
    let mut s = String::new();
    push_decimal(&mut s, n);
    assert(s@ =~= decimal_chars(n as nat));
    s
}

/// Facts about a rendering: it is a nonempty run of digits worth `n`.
pub proof fn lemma_decimal_chars_digits(n: nat)
    ensures
        decimal_chars(n).len() > 0,
        all_decimal_digits(decimal_chars(n)),
        digits_value(decimal_chars(n)) == n,
    decreases n,
{
    let d = (n % 10) as int;
    assert(digit_char(d) as u32 == d + 48);
    if n >= 10 {
        lemma_decimal_chars_digits(n / 10);
        let t = decimal_chars(n / 10);
        let s = decimal_chars(n);
        assert(s.drop_last() =~= t);
        assert forall|i: int| 0 <= i < s.len() implies is_decimal_digit(#[trigger] s[i]) by {
            if i < t.len() {
                assert(s[i] == t[i]);
            } else {
                assert(s[i] == digit_char(d));
            }
        }
        assert(digits_value(s) == digits_value(t) * 10 + d);
    } else {
        let s = decimal_chars(n);
        assert(s.drop_last() =~= Seq::<char>::empty());
        assert(s.last() == digit_char(d));
        assert(digits_value(s.drop_last()) == 0);
        assert(digits_value(s) == d);
    }
}

/// Reading back a rendering gives the rendered value: `n.to_string()` parses
/// as `n`, signed or not, and as a `u16` whenever `n` fits in one.
pub proof fn lemma_decimal_round_trip(n: nat)
    ensures
        decimal_integer(decimal_chars(n), false) == Some(n as int),
        decimal_integer(decimal_chars(n), true) == Some(n as int),
        n <= u16::MAX ==> spec_parse_u16(decimal_chars(n)) == Some(n as u16),
        n <= i32::MAX ==> spec_parse_i32(decimal_chars(n)) == Some(n as i32),
{
    lemma_decimal_chars_digits(n);
    let s = decimal_chars(n);
    assert(is_decimal_digit(s[0]));
}

} // verus!
