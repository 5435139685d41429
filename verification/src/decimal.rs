//! Decimal numerals: reading an ordinal out of a route key, and writing an
//! identifier into a link.

use vstd::prelude::*;

verus! {

/// Whether `c` is one of the ten ASCII digits.
pub open spec fn is_digit(c: char) -> bool {
    '0' <= c <= '9'
}

/// The number that the digit `c` stands for.
pub open spec fn digit_value(c: char) -> nat
    recommends
        is_digit(c),
{
    (c as u32 - '0' as u32) as nat
}

/// The digit that stands for `d`.
pub open spec fn digit_char(d: nat) -> char
    recommends
        d < 10,
{
    ('0' as u32 + d) as char
}

/// Whether `s` holds digits only.
pub open spec fn all_digits(s: Seq<char>) -> bool {
    forall|i: int| 0 <= i < s.len() ==> is_digit(#[trigger] s[i])
}

/// The number that a run of digits denotes, most significant digit first.
pub open spec fn digits_value(s: Seq<char>) -> nat
    decreases s.len(),
{
    if s.len() == 0 {
        0
    } else {
        digits_value(s.drop_last()) * 10 + digit_value(s.last())
    }
}

/// The digits of a numeral: what follows an optional leading `+`.
pub open spec fn unsigned_part(s: Seq<char>) -> Seq<char> {
    if s.len() > 0 && s[0] == '+' {
        s.drop_first()
    } else {
        s
    }
}

/// The number that `s` denotes as a decimal numeral: an optional `+`, then
/// one or more digits and nothing else. Leading zeros are allowed.
pub open spec fn decimal_value(s: Seq<char>) -> Option<nat> {
    let digits = unsigned_part(s);
    if digits.len() > 0 && all_digits(digits) {
        Some(digits_value(digits))
    } else {
        None
    }
}

/// The digits of `n`, without leading zeros.
pub open spec fn decimal_digits(n: nat) -> Seq<char>
    decreases n,
{
    if n < 10 {
        seq![digit_char(n)]
    } else {
        decimal_digits(n / 10).push(digit_char(n % 10))
    }
}

/// The decimal numeral of `n`, with a leading `-` below zero.
pub open spec fn decimal_text(n: int) -> Seq<char> {
    if n < 0 {
        seq!['-'] + decimal_digits((-n) as nat)
    } else {
        decimal_digits(n as nat)
    }
}

/// A numeral is worth at least as much as any of its prefixes.
proof fn lemma_prefix_is_no_greater(s: Seq<char>, k: int)
    requires
        0 <= k <= s.len(),
    ensures
        digits_value(s.take(k)) <= digits_value(s),
    decreases s.len() - k,
{
    if k == s.len() {
        assert(s.take(k) == s);
    } else {
        lemma_prefix_is_no_greater(s.drop_last(), k);
        assert(s.drop_last().take(k) == s.take(k));
    }
}

/// Reads one digit.
fn read_digit(c: char) -> (d: Option<usize>)
    ensures
        d is Some <==> is_digit(c),
        d matches Some(v) ==> v == digit_value(c) && v < 10,
{
    if '0' <= c && c <= '9' {
        Some((c as u32 - 48) as usize)
    } else {
        None
    }
}

/// Reads a decimal numeral: an optional `+`, then one or more digits.
///
/// Text of any other shape is refused, and so is a numeral whose value does
/// not fit the machine word.
pub fn parse_decimal(text: &str) -> (parsed: Option<usize>)
    ensures
        match parsed {
            Some(n) => decimal_value(text@) == Some(n as nat),
            None => decimal_value(text@) matches Some(v) ==> v > usize::MAX,
        },
{
    broadcast use vstd::string::axiom_spec_iter;

    let ghost s = text@;
    let ghost start: int = if s.len() > 0 && s[0] == '+' { 1 } else { 0 };
    let mut first = true;
    let mut any = false;
    let mut value: usize = 0;
    for c in it: text.chars()
        invariant
            it.seq() == s,
            s == text@,
            start == if s.len() > 0 && s[0] == '+' { 1int } else { 0int },
            first == (it.index() == 0),
            any == (it.index() > start),
            it.index() < start ==> value == 0,
            it.index() >= start ==> all_digits(s.subrange(start, it.index())) && value
                == digits_value(s.subrange(start, it.index())),
    {
        let ghost k = it.index();
        let sign = first && c == '+';
        first = false;
        if !sign {
            proof {
                assert(unsigned_part(s) == s.subrange(start, s.len() as int));
                assert(unsigned_part(s)[k - start] == c);
                assert(s.subrange(start, k + 1) == s.subrange(start, k).push(c));
                assert(s.subrange(start, k + 1).drop_last() == s.subrange(start, k));
                assert(unsigned_part(s).take(k + 1 - start) == s.subrange(start, k + 1));
                lemma_prefix_is_no_greater(unsigned_part(s), k + 1 - start);
            }
            let digit = match read_digit(c) {
                Some(digit) => digit,
                None => return None,
            };
            let tens = match value.checked_mul(10) {
                Some(tens) => tens,
                None => return None,
            };
            value = match tens.checked_add(digit) {
                Some(sum) => sum,
                None => return None,
            };
            any = true;
        }
    }
    proof {
        assert(unsigned_part(s) == s.subrange(start, s.len() as int));
    }
    if any {
        Some(value)
    } else {
        None
    }
}

/// Appends the digits of `n` to `out`.
fn push_digits(out: &mut String, n: u32)
    ensures
        final(out)@ == old(out)@ + decimal_digits(n as nat),
    decreases n,
{
    if n >= 10 {
        push_digits(out, n / 10);
    }
    out.push((48 + n % 10) as u8 as char);
}

/// Writes `n` as a decimal numeral.
pub fn decimal_string(n: i32) -> (text: String)
    ensures
        text@ == decimal_text(n as int),
{
    let mut text = String::new();
    if n < 0 {
        text.push('-');
        push_digits(&mut text, (-(n as i64)) as u32);
    } else {
        push_digits(&mut text, n as u32);
    }
    text
}

/// The digits of a number are digits, at least one, and denote the number.
proof fn lemma_digits_denote(n: nat)
    ensures
        decimal_digits(n).len() > 0,
        all_digits(decimal_digits(n)),
        digits_value(decimal_digits(n)) == n,
    decreases n,
{
    let digits = decimal_digits(n);
    if n < 10 {
        assert(digits.drop_last() == Seq::<char>::empty());
        assert(digits_value(digits.drop_last()) == 0);
        assert(digit_value(digits.last()) == n);
    } else {
        lemma_digits_denote(n / 10);
        assert(digits.drop_last() == decimal_digits(n / 10));
        assert(digit_value(digits.last()) == n % 10);
    }
}

/// What is written for a number that is not negative reads back as that
/// number; what is written for a negative number is no numeral that can be
/// read.
pub proof fn lemma_written_numeral_reads_back(n: int)
    ensures
        n >= 0 ==> decimal_value(decimal_text(n)) == Some(n as nat),
        n < 0 ==> decimal_value(decimal_text(n)) is None,
{
    if n >= 0 {
        lemma_digits_denote(n as nat);
        assert(is_digit(decimal_digits(n as nat)[0]));
    } else {
        lemma_digits_denote((-n) as nat);
        assert(!is_digit(decimal_text(n)[0]));
    }
}

} // verus!
