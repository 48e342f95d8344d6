//! Network addresses and their textual form, `a.b.c.d:port`.

use crate::text::{
    all_digits, decimal_text, decimal_value, is_digit, lemma_decimal_text_digits,
    lemma_decimal_text_len, lemma_decimal_value_of_text, push_decimal, scan_decimal,
};
use vstd::prelude::*;

verus! {

/// An IPv4 address and a UDP port. The protocol carries addresses as text and
/// otherwise does not look inside them.
#[derive(Clone, Copy, Debug, PartialEq, Eq, Structural)]
pub struct NetworkAddress {
    pub a: u8,
    pub b: u8,
    pub c: u8,
    pub d: u8,
    pub port: u16,
}

/// The textual form of an address: the four octets as decimal numerals
/// separated by dots, a colon, and the port as a decimal numeral.
pub open spec fn address_text(address: NetworkAddress) -> Seq<char> {
    decimal_text(address.a as nat) + seq!['.'] + decimal_text(address.b as nat) + seq!['.']
        + decimal_text(address.c as nat) + seq!['.'] + decimal_text(address.d as nat) + seq![':']
        + decimal_text(address.port as nat)
}

/// The address that a text stands for: the one whose textual form the text
/// is, if there is one.
pub open spec fn address_of_text(text: Seq<char>) -> Option<NetworkAddress> {
    if exists|address: NetworkAddress| address_text(address) == text {
        Some(choose|address: NetworkAddress| address_text(address) == text)
    } else {
        None
    }
}

/// Where the run of digits that starts at `start` ends, `limit` digits at most.
spec fn digits_end(s: Seq<char>, start: int, limit: nat) -> int
    decreases limit,
{
    if limit > 0 && 0 <= start < s.len() && is_digit(s[start]) {
        digits_end(s, start + 1, (limit - 1) as nat)
    } else {
        start
    }
}

/// What the run of digits that starts at `start` denotes.
spec fn digits_value(s: Seq<char>, start: int) -> nat {
    decimal_value(s.subrange(start, digits_end(s, start, 5)))
}

/// Whether `s` has the character `c` at index `i`.
spec fn has_char_at(s: Seq<char>, i: int, c: char) -> bool {
    0 <= i < s.len() && s[i] == c
}

/// The address that the digits and separators of `s` spell out, read from
/// left to right, whether or not `s` is its textual form.
spec fn address_read(s: Seq<char>) -> Option<NetworkAddress> {
    let e0 = digits_end(s, 0, 5);
    let e1 = digits_end(s, e0 + 1, 5);
    let e2 = digits_end(s, e1 + 1, 5);
    let e3 = digits_end(s, e2 + 1, 5);
    let e4 = digits_end(s, e3 + 1, 5);
    if has_char_at(s, e0, '.') && has_char_at(s, e1, '.') && has_char_at(s, e2, '.')
        && has_char_at(s, e3, ':') && e4 == s.len() && digits_value(s, 0) <= 255
        && digits_value(s, e0 + 1) <= 255 && digits_value(s, e1 + 1) <= 255
        && digits_value(s, e2 + 1) <= 255 && digits_value(s, e3 + 1) <= 65535 {
        Some(
            NetworkAddress {
                a: digits_value(s, 0) as u8,
                b: digits_value(s, e0 + 1) as u8,
                c: digits_value(s, e1 + 1) as u8,
                d: digits_value(s, e2 + 1) as u8,
                port: digits_value(s, e3 + 1) as u16,
            },
        )
    } else {
        None
    }
}

/// A run of digits ends where the first character that is no digit stands,
/// or at the limit.
proof fn lemma_digits_end(s: Seq<char>, start: int, limit: nat, end: int)
    requires
        0 <= start <= end <= s.len(),
        end - start <= limit,
        forall|k: int| start <= k < end ==> is_digit(#[trigger] s[k]),
        end - start < limit && end < s.len() ==> !is_digit(s[end]),
    ensures
        digits_end(s, start, limit) == end,
    decreases limit,
{
    if limit > 0 && start < end {
        lemma_digits_end(s, start + 1, (limit - 1) as nat, end);
    }
}

/// Where a numeral of at most five digits stands in `s` at `start` and no
/// digit follows it, reading the digits from `start` gives its number.
proof fn lemma_numeral_read(s: Seq<char>, start: int, n: nat)
    requires
        n < 100000,
        0 <= start,
        start + decimal_text(n).len() <= s.len(),
        s.subrange(start, start + decimal_text(n).len()) == decimal_text(n),
        start + decimal_text(n).len() < s.len() ==> !is_digit(s[start + decimal_text(n).len()]),
    ensures
        digits_end(s, start, 5) == start + decimal_text(n).len(),
        digits_value(s, start) == n,
{
    let t = decimal_text(n);
    let end = start + t.len();
    lemma_decimal_text_digits(n);
    lemma_decimal_text_len(n);
    lemma_decimal_value_of_text(n);
    assert forall|k: int| start <= k < end implies is_digit(#[trigger] s[k]) by {
        assert(s[k] == s.subrange(start, end)[k - start]);
    }
    lemma_digits_end(s, start, 5, end);
}

/// Reading the textual form of an address gives the address.
proof fn lemma_read_address_text(address: NetworkAddress)
    ensures
        address_read(address_text(address)) == Some(address),
{
    let t0 = decimal_text(address.a as nat);
    let t1 = decimal_text(address.b as nat);
    let t2 = decimal_text(address.c as nat);
    let t3 = decimal_text(address.d as nat);
    let t4 = decimal_text(address.port as nat);
    let s = address_text(address);
    lemma_decimal_text_digits(address.a as nat);
    lemma_decimal_text_digits(address.b as nat);
    lemma_decimal_text_digits(address.c as nat);
    lemma_decimal_text_digits(address.d as nat);
    lemma_decimal_text_digits(address.port as nat);
    let e0 = t0.len() as int;
    let e1 = e0 + 1 + t1.len();
    let e2 = e1 + 1 + t2.len();
    let e3 = e2 + 1 + t3.len();
    let e4 = e3 + 1 + t4.len();
    assert(s.len() == e4);
    assert(s[e0] == '.');
    assert(s[e1] == '.');
    assert(s[e2] == '.');
    assert(s[e3] == ':');
    assert(s.subrange(0, e0) =~= t0);
    assert(s.subrange(e0 + 1, e1) =~= t1);
    assert(s.subrange(e1 + 1, e2) =~= t2);
    assert(s.subrange(e2 + 1, e3) =~= t3);
    assert(s.subrange(e3 + 1, e4) =~= t4);
    lemma_numeral_read(s, 0, address.a as nat);
    lemma_numeral_read(s, e0 + 1, address.b as nat);
    lemma_numeral_read(s, e1 + 1, address.c as nat);
    lemma_numeral_read(s, e2 + 1, address.d as nat);
    lemma_numeral_read(s, e3 + 1, address.port as nat);
}

/// The textual form of an address starts with a digit.
pub proof fn lemma_address_text_starts_with_digit(address: NetworkAddress)
    ensures
        address_text(address).len() > 0,
        is_digit(address_text(address)[0]),
{
    lemma_decimal_text_digits(address.a as nat);
    assert(address_text(address)[0] == decimal_text(address.a as nat)[0]);
}

/// Two addresses with one textual form are one address.
pub proof fn lemma_address_text_injective(first: NetworkAddress, second: NetworkAddress)
    requires
        address_text(first) == address_text(second),
    ensures
        first == second,
{
    lemma_read_address_text(first);
    lemma_read_address_text(second);
}

/// Writing an address and reading the text back gives the same address.
pub proof fn lemma_address_round_trip(address: NetworkAddress)
    ensures
        address_of_text(address_text(address)) == Some(address),
{
    let text = address_text(address);
    let chosen = choose|other: NetworkAddress| address_text(other) == text;
    lemma_address_text_injective(chosen, address);
}

/// A text stands for an address only if it is that address's textual form.
pub proof fn lemma_address_of_text_is_canonical(text: Seq<char>, address: NetworkAddress)
    ensures
        address_of_text(text) == Some(address) <==> address_text(address) == text,
{
    if address_text(address) == text {
        lemma_address_round_trip(address);
    }
}

/// The spelled-out reading decides what a text stands for.
proof fn lemma_address_of_text_by_reading(text: Seq<char>)
    ensures
        address_of_text(text) == match address_read(text) {
            Some(address) => if address_text(address) == text {
                Some(address)
            } else {
                None
            },
            None => None,
        },
{
    if exists|address: NetworkAddress| address_text(address) == text {
        let chosen = choose|address: NetworkAddress| address_text(address) == text;
        lemma_read_address_text(chosen);
    } else {
        match address_read(text) {
            Some(address) => {
                assert(address_text(address) != text);
            },
            None => {},
        }
    }
}

impl NetworkAddress {
    /// The address `127.0.0.1` with the given port.
    pub fn loopback(port: u16) -> (address: NetworkAddress)
        ensures
            address == (NetworkAddress { a: 127, b: 0, c: 0, d: 1, port }),
    {
        NetworkAddress { a: 127, b: 0, c: 0, d: 1, port }
    }

    /// The textual form of the address.
    pub fn to_text(&self) -> (text: String)
        ensures
            text@ == address_text(*self),
    {
        let mut out = String::new();
        push_decimal(&mut out, self.a as u16);
        out.push('.');
        push_decimal(&mut out, self.b as u16);
        out.push('.');
        push_decimal(&mut out, self.c as u16);
        out.push('.');
        push_decimal(&mut out, self.d as u16);
        out.push(':');
        push_decimal(&mut out, self.port);
        proof {
            assert(out@ =~= address_text(*self));
        }
        out
    }

    /// Reads an address from its textual form. Any other text, one with a
    /// leading zero or a number out of range included, stands for no address.
    pub fn parse(text: &str) -> (parsed: Option<NetworkAddress>)
        ensures
            parsed == address_of_text(text@),
            parsed matches Some(address) ==> address_text(address) == text@,
            parsed is None ==> forall|address: NetworkAddress| address_text(address) != text@,
    {
        let read = Self::read(text);
        proof {
            lemma_address_of_text_by_reading(text@);
        }
        match read {
            Some(address) => {
                let written = address.to_text();
                if written == String::from_str(text) {
                    Some(address)
                } else {
                    None
                }
            },
            None => None,
        }
    }

    /// Reads four octets and a port from `text`, separated as in an address.
    fn read(text: &str) -> (read: Option<NetworkAddress>)
        ensures
            read == address_read(text@),
    {
        let length = text.unicode_len();
        let (a, e0) = scan_decimal(text, length, 0);
        proof {
            Self::scan_is_digits_end(text@, 0, e0 as int);
        }
        if e0 >= length || text.get_char(e0) != '.' {
            return None;
        }
        let (b, e1) = scan_decimal(text, length, e0 + 1);
        proof {
            Self::scan_is_digits_end(text@, e0 + 1, e1 as int);
        }
        if e1 >= length || text.get_char(e1) != '.' {
            return None;
        }
        let (c, e2) = scan_decimal(text, length, e1 + 1);
        proof {
            Self::scan_is_digits_end(text@, e1 + 1, e2 as int);
        }
        if e2 >= length || text.get_char(e2) != '.' {
            return None;
        }
        let (d, e3) = scan_decimal(text, length, e2 + 1);
        proof {
            Self::scan_is_digits_end(text@, e2 + 1, e3 as int);
        }
        if e3 >= length || text.get_char(e3) != ':' {
            return None;
        }
        let (port, e4) = scan_decimal(text, length, e3 + 1);
        proof {
            Self::scan_is_digits_end(text@, e3 + 1, e4 as int);
        }
        if e4 != length || a > 255 || b > 255 || c > 255 || d > 255 || port > 65535 {
            return None;
        }
        Some(NetworkAddress { a: a as u8, b: b as u8, c: c as u8, d: d as u8, port: port as u16 })
    }

    /// What `scan_decimal` reports of its end is what `digits_end` computes.
    proof fn scan_is_digits_end(s: Seq<char>, start: int, end: int)
        requires
            0 <= start <= end <= s.len(),
            end - start <= 5,
            all_digits(s.subrange(start, end)),
            end < s.len() && end - start < 5 ==> !is_digit(s[end]),
        ensures
            digits_end(s, start, 5) == end,
    {
        assert forall|k: int| start <= k < end implies is_digit(#[trigger] s[k]) by {
            assert(s[k] == s.subrange(start, end)[k - start]);
        }
        lemma_digits_end(s, start, 5, end);
    }
}

} // verus!
