use vstd::prelude::*;
use vstd::string::*;

verus! {

/// The value of a decimal digit, `None` for any other character.
pub open spec fn digit_value(c: char) -> Option<nat> {
    if '0' <= c && c <= '9' {
        Some((c as u32 - 48) as nat)
    } else {
        None
    }
}

/// Whether a text holds decimal digits only.
pub open spec fn all_digits(s: Seq<char>) -> bool {
    forall|k: int| 0 <= k < s.len() ==> (#[trigger] digit_value(s[k])) is Some
}

/// The number that a text of decimal digits writes.
pub open spec fn decimal_value(s: Seq<char>) -> nat
    decreases s.len(),
{
    if s.len() == 0 {
        0
    } else {
        decimal_value(s.drop_last()) * 10 + match digit_value(s.last()) {
            Some(d) => d,
            None => 0,
        }
    }
}

/// A text without its leading plus sign, if it has one.
pub open spec fn unsigned_part(text: Seq<char>) -> Seq<char> {
    if text.len() > 0 && text[0] == '+' {
        text.skip(1)
    } else {
        text
    }
}

/// The port that a text writes: an optional plus sign, then one or more
/// decimal digits whose number fits in 16 bits. Any other text writes none.
pub open spec fn port_number(text: Seq<char>) -> Option<u16> {
    let digits = unsigned_part(text);
    if digits.len() > 0 && all_digits(digits) && decimal_value(digits) <= 65535 {
        Some(decimal_value(digits) as u16)
    } else {
        None
    }
}

/// The number written by the first digits of a text never exceeds the number
/// written by all of them.
pub proof fn prefix_value_is_smaller(s: Seq<char>, j: int)
    requires
        0 <= j <= s.len(),
    ensures
        decimal_value(s.take(j)) <= decimal_value(s),
    decreases s.len() - j,
{
    if j == s.len() {
        assert(s.take(j) =~= s);
    } else {
        prefix_value_is_smaller(s, j + 1);
        assert(s.take(j + 1).drop_last() =~= s.take(j));
    }
}

/// Reads a port number as the standard library reads a `u16`.
pub fn parse_port(text: &str) -> (port: Option<u16>)
    ensures
        port == port_number(text@),
{
    let ghost digits = unsigned_part(text@);
    if !text.is_ascii() {
        proof {
            let i = choose|i: int|
                0 <= i < text@.len() && !('\0' <= #[trigger] text@[i] && text@[i] <= '\u{7f}');
            if text@.len() > 0 && text@[0] == '+' {
                assert(digits[i - 1] == text@[i]);
                assert(digit_value(digits[i - 1]) is None);
            } else {
                assert(digit_value(digits[i]) is None);
            }
        }
        return None;
    }
    let n: usize = text.unicode_len();
    let start: usize = if n > 0 && text.get_ascii(0) == 43 {
        1
    } else {
        0
    };
    assert(digits =~= text@.skip(start as int)) by {
        if n > 0 {
            assert('\0' <= text@[0] && text@[0] <= '\u{7f}');
        }
        assert(text@.skip(0) =~= text@);
    }
    if start == n {
        return None;
    }
    let mut acc: u32 = 0;
    let mut i: usize = start;
    while i < n
        invariant
            start <= i <= n,
            start < n,
            n == text@.len(),
            text.is_ascii(),
            digits == text@.skip(start as int),
            digits == unsigned_part(text@),
            forall|k: int| 0 <= k < i - start ==> (#[trigger] digit_value(digits[k])) is Some,
            acc == decimal_value(digits.take(i - start)),
            acc <= 65535,
        decreases n - i,
    {
        let b = text.get_ascii(i);
        let ghost c = text@[i as int];
        assert('\0' <= c && c <= '\u{7f}');
        assert(digits[i - start] == c);
        if b < 48 || b > 57 {
            assert(digit_value(digits[i - start]) is None);
            return None;
        }
        assert(digit_value(c) == Some((b - 48) as nat));
        let digit: u32 = (b - 48) as u32;
        acc = acc * 10 + digit;
        proof {
            let next = digits.take(i + 1 - start);
            assert(next.drop_last() =~= digits.take(i - start));
            assert(next.last() == c);
        }
        if acc > 65535 {
            proof {
                prefix_value_is_smaller(digits, i + 1 - start);
            }
            return None;
        }
        i = i + 1;
    }
    assert(digits.take(n - start) =~= digits);
    assert(all_digits(digits));
    Some(acc as u16)
}

} // verus!
