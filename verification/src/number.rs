//! Whole numbers in decimal: written out, and read from text.
use vstd::prelude::*;

use crate::text;

verus! {

/// Whether `c` is one of the digits 0 to 9.
pub open spec fn is_digit(c: char) -> bool {
    '0' <= c <= '9'
}

/// The number that the decimal digit `c` stands for.
pub open spec fn digit_value(c: char) -> nat {
    (c as u32 - '0' as u32) as nat
}

/// The number that a row of decimal digits stands for.
pub open spec fn digits_value(s: Seq<char>) -> nat
    decreases s.len(),
{
    if s.len() == 0 {
        0
    } else {
        digits_value(s.drop_last()) * 10 + digit_value(s.last())
    }
}

/// `s` without one plus sign at its start.
pub open spec fn without_plus(s: Seq<char>) -> Seq<char> {
    if s.len() > 0 && s.first() == '+' {
        s.drop_first()
    } else {
        s
    }
}

/// The number that `s` writes: an optional plus sign and then digits alone, at
/// least one, for a number that fits in 64 bits.
pub open spec fn number_in(s: Seq<char>) -> Option<u64> {
    let digits = without_plus(s);
    if digits.len() > 0 && (forall|i: int| 0 <= i < digits.len() ==> is_digit(digits[i]))
        && digits_value(digits) <= u64::MAX {
        Some(digits_value(digits) as u64)
    } else {
        None
    }
}

/// A longer row of digits stands for no smaller number.
proof fn lemma_digits_value_grows(s: Seq<char>, n: int)
    requires
        0 <= n <= s.len(),
    ensures
        digits_value(s.take(n)) <= digits_value(s),
    decreases s.len(),
{
    if n == s.len() {
        assert(s.take(n) == s);
    } else {
        lemma_digits_value_grows(s.drop_last(), n);
        assert(s.drop_last().take(n) == s.take(n));
    }
}

/// Reads the number that `s` writes.
pub fn parse_u64(s: &str) -> (number: Option<u64>)
    ensures
        number == number_in(s@),
{
    let chars = text::chars_of(s);
    let n: usize = chars.len();
    let start: usize = if n > 0 && chars[0] == '+' { 1 } else { 0 };
    let ghost digits = without_plus(s@);
    assert(digits == s@.skip(start as int));
    if start == n {
        return None;
    }
    let mut value: u64 = 0;
    let mut i: usize = start;
    while i < n
        invariant
            chars@ == s@,
            n == chars@.len(),
            start < n,
            start <= i <= n,
            digits == s@.skip(start as int),
            digits == without_plus(s@),
            forall|k: int| 0 <= k < i - start ==> is_digit(digits[k]),
            value == digits_value(digits.take(i - start)),
        decreases n - i,
    {
        let c = chars[i];
        let ghost at = i - start;
        assert(c == digits[at]);
        if !('0' <= c && c <= '9') {
            return None;
        }
        proof {
            assert(digits.take(at + 1).drop_last() == digits.take(at));
            lemma_digits_value_grows(digits, at + 1);
        }
        let digit: u64 = (c as u32 - '0' as u32) as u64;
        if value > (u64::MAX - digit) / 10 {
            return None;
        }
        value = value * 10 + digit;
        i = i + 1;
    }
    assert(digits.take(n - start) == digits);
    Some(value)
}

/// The decimal digit that stands for `n`, which is below ten.
pub open spec fn digit_char(n: nat) -> char {
    ('0' as u32 + n) as char
}

/// `n` written in decimal, without leading zeros.
pub open spec fn decimal(n: nat) -> Seq<char>
    decreases n,
{
    if n < 10 {
        seq![digit_char(n)]
    } else {
        decimal(n / 10).push(digit_char(n % 10))
    }
}

/// Appends `n`, written in decimal, to `out`.
pub fn push_decimal(out: &mut String, n: u64)
    ensures
        final(out)@ == old(out)@ + decimal(n as nat),
    decreases n,
{
    if n >= 10 {
        push_decimal(out, n / 10);
    }
    let digit: u8 = 48 + (n % 10) as u8;
    out.push(digit as char);
}

/// A number written in decimal is read back as itself.
pub proof fn law_decimal_is_read_back(n: u64)
    ensures
        number_in(decimal(n as nat)) == Some(n),
{
    lemma_decimal(n as nat);
}

/// What [`decimal`] writes is digits alone, at least one, and stands for `n`.
proof fn lemma_decimal(n: nat)
    ensures
        decimal(n).len() > 0,
        forall|i: int| 0 <= i < decimal(n).len() ==> is_digit(#[trigger] decimal(n)[i]),
        digits_value(decimal(n)) == n,
    decreases n,
{
    let s = decimal(n);
    if n >= 10 {
        lemma_decimal(n / 10);
        assert(s.drop_last() == decimal(n / 10));
    } else {
        assert(s.drop_last() == Seq::<char>::empty());
        assert(digits_value(s.drop_last()) == 0);
    }
}

/// The ten digits, in order.
pub open spec fn ten_digits() -> Seq<char> {
    seq!['0', '1', '2', '3', '4', '5', '6', '7', '8', '9']
}

/// Ten times a number and a digit is written as the number and the digit; zero
/// is written where it stands alone.
pub proof fn law_decimal_is_positional(n: nat, d: nat)
    requires
        d < 10,
    ensures
        decimal(d) == seq![ten_digits()[d as int]],
        n > 0 ==> decimal(n * 10 + d) == decimal(n).push(ten_digits()[d as int]),
{
    assert(digit_char(d) == ten_digits()[d as int]);
    assert((n * 10 + d) / 10 == n);
    assert((n * 10 + d) % 10 == d);
}

/// A number of more than 64 bits is not read.
pub proof fn law_large_numbers_are_refused(n: nat)
    requires
        n > u64::MAX,
    ensures
        number_in(decimal(n)) is None,
{
    lemma_decimal(n);
}

/// One plus sign and any zeros before a number change nothing.
pub proof fn law_sign_and_zeros_change_nothing(s: Seq<char>)
    requires
        s.len() > 0,
        s.first() != '+',
    ensures
        number_in(seq!['0'] + s) == number_in(s),
        number_in(seq!['+'] + s) == number_in(s),
        number_in(seq!['+', '+'] + s) is None,
{
    let zero = seq!['0'] + s;
    lemma_zero_before(s);
    assert forall|i: int| 0 <= i < s.len() implies s[i] == zero[i + 1] by {}
    if forall|i: int| 0 <= i < s.len() ==> is_digit(s[i]) {
        assert(forall|i: int| 0 <= i < zero.len() ==> is_digit(zero[i]));
    } else {
        let i = choose|i: int| 0 <= i < s.len() && !is_digit(s[i]);
        assert(!is_digit(zero[i + 1]));
    }
    assert((seq!['+'] + s).drop_first() == s);
    let signs = seq!['+', '+'] + s;
    assert(without_plus(signs)[0] == '+');
}

proof fn lemma_zero_before(s: Seq<char>)
    ensures
        digits_value(seq!['0'] + s) == digits_value(s),
    decreases s.len(),
{
    let zero = seq!['0'] + s;
    if s.len() == 0 {
        assert(zero.drop_last() == Seq::<char>::empty());
        assert(digits_value(zero.drop_last()) == 0);
    } else {
        lemma_zero_before(s.drop_last());
        assert(zero.drop_last() == seq!['0'] + s.drop_last());
    }
}

/// What is read as a number is digits alone, at least one, but for a plus sign
/// at the start.
pub proof fn law_numbers_are_digits(s: Seq<char>)
    requires
        number_in(s) is Some,
    ensures
        s.len() > 0,
        '0' <= s.last() <= '9',
        forall|i: int|
            0 <= i < s.len() ==> ('0' <= #[trigger] s[i] <= '9' || (i == 0 && s[i] == '+')),
{
    let digits = without_plus(s);
    let n = s.len() - digits.len();
    assert forall|i: int| n <= i < s.len() implies '0' <= #[trigger] s[i] <= '9' by {
        assert(s[i] == digits[i - n]);
        assert(is_digit(digits[i - n]));
    }
    assert(s.last() == s[s.len() - 1]);
}

} // verus!
