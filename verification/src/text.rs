//! Decimal numerals and other small pieces of text handling shared by the
//! address codec and the peer's input handling.

use vstd::prelude::*;

verus! {

/// `String::push` appends one character to the end of the string.
pub assume_specification[ String::push ](text: &mut String, c: char)
    ensures
        final(text)@ == old(text)@.push(c),
;

/// Whether `c` is one of the ten decimal digits.
pub open spec fn is_digit(c: char) -> bool {
    '0' <= c && c <= '9'
}

/// The digit that stands for `d`, for `d` below ten.
pub open spec fn digit_char(d: nat) -> char
    recommends
        d < 10,
{
    (('0' as u8) + d) as char
}

/// The number that the digit `c` stands for.
pub open spec fn digit_value(c: char) -> nat
    recommends
        is_digit(c),
{
    ((c as u8) - ('0' as u8)) as nat
}

/// Whether every character of `s` is a decimal digit.
pub open spec fn all_digits(s: Seq<char>) -> bool {
    forall|i: int| 0 <= i < s.len() ==> is_digit(#[trigger] s[i])
}

/// The decimal numeral of `n`: no sign, no leading zero, `"0"` for zero.
pub open spec fn decimal_text(n: nat) -> Seq<char>
    decreases n,
{
    if n < 10 {
        seq![digit_char(n)]
    } else {
        decimal_text(n / 10).push(digit_char(n % 10))
    }
}

/// The number that a run of decimal digits denotes, most significant digit
/// first. The empty run denotes zero.
pub open spec fn decimal_value(s: Seq<char>) -> nat
    decreases s.len(),
{
    if s.len() == 0 {
        0
    } else {
        10 * decimal_value(s.drop_last()) + digit_value(s.last())
    }
}

/// A numeral consists of digits only, and is never empty.
pub proof fn lemma_decimal_text_digits(n: nat)
    ensures
        decimal_text(n).len() >= 1,
        all_digits(decimal_text(n)),
    decreases n,
{
    if n >= 10 {
        lemma_decimal_text_digits(n / 10);
    }
}

/// A numeral has no more digits than its magnitude calls for.
pub proof fn lemma_decimal_text_len(n: nat)
    ensures
        n < 10 ==> decimal_text(n).len() == 1,
        10 <= n < 100 ==> decimal_text(n).len() == 2,
        100 <= n < 1000 ==> decimal_text(n).len() == 3,
        1000 <= n < 10000 ==> decimal_text(n).len() == 4,
        10000 <= n < 100000 ==> decimal_text(n).len() == 5,
{
    reveal_with_fuel(decimal_text, 6);
}

/// Reading a numeral gives back the number it was written for.
pub proof fn lemma_decimal_value_of_text(n: nat)
    ensures
        decimal_value(decimal_text(n)) == n,
    decreases n,
{
    if n < 10 {
        let s = decimal_text(n);
        assert(s.drop_last().len() == 0);
        assert(decimal_value(s.drop_last()) == 0);
    } else {
        lemma_decimal_value_of_text(n / 10);
        let s = decimal_text(n);
        assert(s.drop_last() =~= decimal_text(n / 10));
        assert(s.last() == digit_char(n % 10));
    }
}

/// Whether `c` is dropped when a line typed by the user is cleaned up.
pub open spec fn is_padding(c: char) -> bool {
    c == ' ' || c == '\n'
}

/// `s` without its spaces and line feeds, the other characters in order.
pub open spec fn without_padding(s: Seq<char>) -> Seq<char> {
    s.filter(|c: char| !is_padding(c))
}

/// The digit for `d`.
pub(crate) fn digit_of(d: u8) -> (c: char)
    requires
        d < 10,
    ensures
        c == digit_char(d as nat),
        is_digit(c),
{
    (48u8 + d) as char
}

/// Appends the decimal numeral of `n` to `out`.
pub fn push_decimal(out: &mut String, n: u16)
    ensures
        final(out)@ == old(out)@ + decimal_text(n as nat),
    decreases n,
{
    if n >= 10 {
        push_decimal(out, n / 10);
    }
    out.push(digit_of((n % 10) as u8));
    proof {
        if n >= 10 {
            assert(old(out)@ + decimal_text(n as nat) =~= (old(out)@ + decimal_text(
                (n / 10) as nat,
            )).push(digit_char((n % 10) as nat)));
        } else {
            assert(old(out)@ + decimal_text(n as nat) =~= old(out)@.push(digit_char(n as nat)));
        }
    }
}

/// Reads the digits of `text` that start at `start`, five of them at most.
/// `length` is the number of characters of `text`.
pub(crate) fn scan_decimal(text: &str, length: usize, start: usize) -> (found: (u32, usize))
    requires
        length == text@.len(),
        start <= length,
    ensures
        start <= found.1 <= length,
        found.1 - start <= 5,
        all_digits(text@.subrange(start as int, found.1 as int)),
        found.0 == decimal_value(text@.subrange(start as int, found.1 as int)),
        found.1 < length && found.1 - start < 5 ==> !is_digit(text@[found.1 as int]),
{
    let mut value: u32 = 0;
    let mut end: usize = start;
    while end < length && end - start < 5
        invariant
            length == text@.len(),
            start <= end <= length,
            end - start <= 5,
            all_digits(text@.subrange(start as int, end as int)),
            value == decimal_value(text@.subrange(start as int, end as int)),
            value < pow10(end - start),
        decreases length - end,
    {
        let c = text.get_char(end);
        if !(c >= '0' && c <= '9') {
            return (value, end);
        }
        proof {
            let before = text@.subrange(start as int, end as int);
            let after = text@.subrange(start as int, end + 1);
            assert(after.drop_last() =~= before);
            assert(after.last() == c);
            assert forall|i: int| 0 <= i < after.len() implies is_digit(#[trigger] after[i]) by {
                if i < before.len() {
                    assert(after[i] == before[i]);
                }
            }
        }
        value = value * 10 + ((c as u8) - 48u8) as u32;
        end = end + 1;
    }
    (value, end)
}

/// Ten to the power `k`, for the few powers that a port number can reach.
spec fn pow10(k: int) -> nat {
    if k <= 0 {
        1
    } else if k == 1 {
        10
    } else if k == 2 {
        100
    } else if k == 3 {
        1000
    } else if k == 4 {
        10000
    } else {
        100000
    }
}

/// `text` without its spaces and line feeds.
pub fn strip_padding(text: &str) -> (stripped: String)
    ensures
        stripped@ == without_padding(text@),
{
    let length = text.unicode_len();
    let mut out = String::new();
    let mut i: usize = 0;
    while i < length
        invariant
            length == text@.len(),
            i <= length,
            out@ == without_padding(text@.subrange(0, i as int)),
        decreases length - i,
    {
        let c = text.get_char(i);
        proof {
            let before = text@.subrange(0, i as int);
            let after = text@.subrange(0, i + 1);
            assert(after.drop_last() =~= before);
            assert(after.last() == c);
            reveal(Seq::filter);
        }
        if !(c == ' ' || c == '\n') {
            out.push(c);
        }
        i = i + 1;
    }
    proof {
        assert(text@.subrange(0, length as int) =~= text@);
    }
    out
}

} // verus!
