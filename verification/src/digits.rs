//! Decimal text for unsigned numbers, as `u32`'s `FromStr` reads it and its
//! `Display` writes it.

use vstd::prelude::*;

use crate::text::push_char;

verus! {

/// An ASCII decimal digit.
pub open spec fn is_digit(c: char) -> bool {
    '0' <= c && c <= '9'
}

/// The value of one decimal digit.
pub open spec fn digit_value(c: char) -> nat {
    (c as int - '0' as int) as nat
}

/// The character of a digit value below ten.
pub open spec fn digit_char(d: nat) -> char {
    ('0' as int + d) as char
}

/// Every character is a decimal digit.
pub open spec fn all_digits(s: Seq<char>) -> bool {
    forall|i: int| 0 <= i < s.len() ==> is_digit(#[trigger] s[i])
}

/// The value of a run of decimal digits, most significant first.
pub open spec fn digits_value(s: Seq<char>) -> nat
    decreases s.len(),
{
    if s.len() == 0 {
        0
    } else {
        digits_value(s.drop_last()) * 10 + digit_value(s.last())
    }
}

/// What `u32`'s `FromStr` reads: one optional leading `+`, then one or more
/// decimal digits whose value fits in a `u32`.
pub open spec fn parse_u32_spec(s: Seq<char>) -> Option<u32> {
    let d = unsigned_digits(s);
    if d.len() > 0 && all_digits(d) && digits_value(d) <= u32::MAX {
        Some(digits_value(d) as u32)
    } else {
        None
    }
}

/// The digits of `s` once one leading `+` is set aside.
pub open spec fn unsigned_digits(s: Seq<char>) -> Seq<char> {
    if s.len() > 0 && s[0] == '+' {
        s.drop_first()
    } else {
        s
    }
}

/// The decimal text of `n`, as `Display` writes an unsigned number: no sign,
/// no leading zeros, `0` for zero.
pub open spec fn decimal_text(n: nat) -> Seq<char>
    decreases n,
{
    if n < 10 {
        seq![digit_char(n)]
    } else {
        decimal_text(n / 10).push(digit_char(n % 10))
    }
}

proof fn lemma_digit_roundtrip(d: nat)
    requires
        d < 10,
    ensures
        is_digit(digit_char(d)),
        digit_value(digit_char(d)) == d,
{
}

/// The decimal text of a number is a nonempty run of digits whose value is
/// the number.
pub proof fn lemma_decimal_text_value(n: nat)
    ensures
        decimal_text(n).len() > 0,
        all_digits(decimal_text(n)),
        digits_value(decimal_text(n)) == n,
        unsigned_digits(decimal_text(n)) == decimal_text(n),
    decreases n,
{
    if n < 10 {
        lemma_digit_roundtrip(n);
        assert(seq![digit_char(n)].drop_last() =~= Seq::<char>::empty());
        assert(digits_value(Seq::<char>::empty()) == 0);
        assert(digits_value(decimal_text(n)) == digits_value(Seq::<char>::empty()) * 10 + digit_value(digit_char(n)));
    } else {
        lemma_decimal_text_value(n / 10);
        lemma_digit_roundtrip(n % 10);
        let t = decimal_text(n / 10);
        assert(t.push(digit_char(n % 10)).drop_last() =~= t);
        assert(n == (n / 10) * 10 + n % 10);
        assert(decimal_text(n) == t.push(digit_char(n % 10)));
        assert(digits_value(decimal_text(n)) == digits_value(t) * 10 + digit_value(digit_char(n % 10)));
    }
    assert(is_digit(decimal_text(n)[0]));
}

/// Reading back the decimal text of a `u32` gives the number.
pub proof fn lemma_parse_decimal_text(n: u32)
    ensures
        parse_u32_spec(decimal_text(n as nat)) == Some(n),
{
    lemma_decimal_text_value(n as nat);
}

proof fn lemma_digits_value_step(s: Seq<char>, i: int)
    requires
        0 <= i < s.len(),
    ensures
        digits_value(s.take(i + 1)) == digits_value(s.take(i)) * 10 + digit_value(s[i]),
{
    assert(s.take(i + 1).drop_last() =~= s.take(i));
}

/// Why `u32`'s `FromStr` refuses a text, as `IntErrorKind` names it.
#[derive(Debug, Clone, Copy, PartialEq, Eq, Structural)]
pub enum NumberError {
    /// The text is empty.
    Empty,
    /// The text holds a character that is not a digit, or is a lone sign.
    InvalidDigit,
    /// The number does not fit in a `u32`.
    PosOverflow,
}

/// Reading the digits `d` fails at position `k`: its character is no digit,
/// or the number read so far no longer fits in a `u32`.
pub open spec fn bad_at(d: Seq<char>, k: int) -> bool {
    &&& 0 <= k < d.len()
    &&& !is_digit(d[k]) || digits_value(d.take(k + 1)) > u32::MAX
}

/// `k` is the first position at which reading `d` fails.
pub open spec fn is_first_bad(d: Seq<char>, k: int) -> bool {
    &&& bad_at(d, k)
    &&& forall|j: int| 0 <= j < k ==> !bad_at(d, j)
}

/// Why `u32`'s `FromStr` refuses `s` (meaningful where it does): an empty
/// text, a lone sign, or else what the digits, read from the left, meet
/// first: a character that is no digit, or a number past `u32::MAX`.
pub open spec fn parse_u32_error(s: Seq<char>) -> NumberError {
    if s.len() == 0 {
        NumberError::Empty
    } else if s.len() == 1 && (s[0] == '+' || s[0] == '-') {
        NumberError::InvalidDigit
    } else {
        let d = unsigned_digits(s);
        let k = choose|k: int| is_first_bad(d, k);
        if !is_digit(d[k]) {
            NumberError::InvalidDigit
        } else {
            NumberError::PosOverflow
        }
    }
}

impl NumberError {
    /// The error's message, as `ParseIntError` writes it.
    pub open spec fn message_text(self) -> Seq<char> {
        match self {
            NumberError::Empty => "cannot parse integer from empty string"@,
            NumberError::InvalidDigit => "invalid digit found in string"@,
            NumberError::PosOverflow => "number too large to fit in target type"@,
        }
    }

    /// See [`NumberError::message_text`].
    pub fn message(self) -> (res: &'static str)
        ensures
            res@ == self.message_text(),
    {
        match self {
            NumberError::Empty => "cannot parse integer from empty string",
            NumberError::InvalidDigit => "invalid digit found in string",
            NumberError::PosOverflow => "number too large to fit in target type",
        }
    }
}

/// A run of digits is worth at least any of its prefixes.
proof fn lemma_prefix_value_le(d: Seq<char>, k: int)
    requires
        all_digits(d),
        0 <= k <= d.len(),
    ensures
        digits_value(d.take(k)) <= digits_value(d),
    decreases d.len(),
{
    if k < d.len() {
        let rest = d.drop_last();
        assert(all_digits(rest));
        lemma_prefix_value_le(rest, k);
        assert(rest.take(k) =~= d.take(k));
    } else {
        assert(d.take(k) =~= d);
    }
}

/// The first failing position is unique.
proof fn lemma_first_bad_unique(d: Seq<char>, k: int)
    requires
        is_first_bad(d, k),
    ensures
        (choose|j: int| is_first_bad(d, j)) == k,
{
    let j = choose|j: int| is_first_bad(d, j);
    assert(is_first_bad(d, j));
    if j < k {
        assert(!bad_at(d, j));
    }
    if k < j {
        assert(!bad_at(d, k));
    }
}

/// Reads the characters `chars[lo..hi]` as `u32`'s `FromStr` does, with
/// the reason for a refusal.
pub fn parse_u32(chars: &Vec<char>, lo: usize, hi: usize) -> (res: Result<u32, NumberError>)
    requires
        lo <= hi <= chars.len(),
    ensures
        match res {
            Ok(v) => parse_u32_spec(chars@.subrange(lo as int, hi as int)) == Some(v),
            Err(e) => parse_u32_spec(chars@.subrange(lo as int, hi as int)) is None && e
                == parse_u32_error(chars@.subrange(lo as int, hi as int)),
        },
{
    let ghost s = chars@.subrange(lo as int, hi as int);
    if lo == hi {
        return Err(NumberError::Empty);
    }
    if hi - lo == 1 && (chars[lo] == '+' || chars[lo] == '-') {
        assert(!is_digit(s[0]));
        assert(!all_digits(unsigned_digits(s)) || unsigned_digits(s).len() == 0);
        return Err(NumberError::InvalidDigit);
    }
    let mut start = lo;
    if chars[lo] == '+' {
        start = lo + 1;
    }
    let ghost d = chars@.subrange(start as int, hi as int);
    assert(d =~= unsigned_digits(s));
    let mut value: u64 = 0;
    let mut i = start;
    while i < hi
        invariant
            lo <= start <= i <= hi <= chars.len(),
            start < hi,
            s == chars@.subrange(lo as int, hi as int),
            s.len() >= 2 || !(s[0] == '+' || s[0] == '-'),
            d == chars@.subrange(start as int, hi as int),
            d == unsigned_digits(s),
            all_digits(d.take(i - start)),
            forall|j: int| 0 <= j < i - start ==> !bad_at(d, j),
            value == digits_value(d.take(i - start)),
            value <= u32::MAX,
        decreases hi - i,
    {
        let c = chars[i];
        let k = i - start;
        if !('0' <= c && c <= '9') {
            proof {
                assert(!is_digit(d[k as int]));
                assert(is_first_bad(d, k as int));
                lemma_first_bad_unique(d, k as int);
                assert(!all_digits(d));
            }
            return Err(NumberError::InvalidDigit);
        }
        proof {
            lemma_digits_value_step(d, k as int);
            assert(d.take(k + 1) =~= d.take(k as int).push(c));
        }
        let next = value * 10 + (c as u64 - '0' as u64);
        if next > u32::MAX as u64 {
            proof {
                assert(is_first_bad(d, k as int));
                lemma_first_bad_unique(d, k as int);
                if all_digits(d) {
                    lemma_prefix_value_le(d, k + 1);
                }
            }
            return Err(NumberError::PosOverflow);
        }
        value = next;
        i = i + 1;
    }
    assert(d.take(hi - start) =~= d);
    Ok(value as u32)
}

/// Appends the decimal text of `n`, as `Display` writes it.
pub fn push_decimal(out: &mut String, n: u64)
    ensures
        final(out)@ == old(out)@ + decimal_text(n as nat),
    decreases n,
{
    let ghost start = out@;
    if n >= 10 {
        push_decimal(out, n / 10);
    }
    let d = (n % 10) as u8;
    let c = (48u8 + d) as char;
    assert(c == digit_char((n % 10) as nat));
    push_char(out, c);
    if n >= 10 {
        assert(start + decimal_text((n / 10) as nat).push(c) =~= (start + decimal_text(
            (n / 10) as nat,
        )).push(c));
    } else {
        assert(start.push(c) =~= start + seq![c]);
    }
}

/// The decimal text of `n`, as `Display` writes it.
pub fn decimal(n: u64) -> (res: String)
    ensures
        res@ == decimal_text(n as nat),
{
    let mut res = String::new();
    push_decimal(&mut res, n);
    assert(Seq::<char>::empty() + decimal_text(n as nat) =~= decimal_text(n as nat));
    res
}

} // verus!
