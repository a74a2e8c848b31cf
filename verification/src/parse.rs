//! Reading numbers and hardware addresses from text.

use vstd::prelude::*;
use vstd::string::StrSliceExecFns;

verus! {

/// Whether a character is white space.
pub open spec fn is_space(c: char) -> bool {
    ||| ('\u{9}' <= c && c <= '\u{d}')
    ||| c == ' '
    ||| c == '\u{85}'
    ||| c == '\u{a0}'
    ||| c == '\u{1680}'
    ||| ('\u{2000}' <= c && c <= '\u{200a}')
    ||| c == '\u{2028}'
    ||| c == '\u{2029}'
    ||| c == '\u{202f}'
    ||| c == '\u{205f}'
    ||| c == '\u{3000}'
}

/// The position of the first character at or after `from` that is no white
/// space: the length where there is none.
pub open spec fn trim_start(text: Seq<char>, from: int) -> int
    decreases text.len() - from,
{
    if from < 0 || from >= text.len() || !is_space(text[from]) {
        from
    } else {
        trim_start(text, from + 1)
    }
}

/// The position behind the last character before `to` and at or after
/// `from` that is no white space: `from` where there is none.
pub open spec fn trim_end(text: Seq<char>, from: int, to: int) -> int
    decreases to - from,
{
    if to <= from || to > text.len() || !is_space(text[to - 1]) {
        to
    } else {
        trim_end(text, from, to - 1)
    }
}

/// The text without the white space at its two ends.
pub open spec fn trimmed(text: Seq<char>) -> Seq<char> {
    let start = trim_start(text, 0);
    text.subrange(start, trim_end(text, start, text.len() as int))
}

/// The value of a character as a digit of the given radix, which is at most
/// sixteen, if it is one.
pub open spec fn digit_value(c: char, radix: nat) -> Option<nat> {
    let value: int = if '0' <= c && c <= '9' {
        c as int - '0' as int
    } else if 'a' <= c && c <= 'f' {
        c as int - 'a' as int + 10
    } else if 'A' <= c && c <= 'F' {
        c as int - 'A' as int + 10
    } else {
        16
    };
    if value < radix {
        Some(value as nat)
    } else {
        None
    }
}

/// The number that a run of digits writes in the given radix, if all of its
/// characters are digits of that radix. The empty run writes zero.
pub open spec fn digits_value(digits: Seq<char>, radix: nat) -> Option<nat>
    decreases digits.len(),
{
    if digits.len() == 0 {
        Some(0)
    } else {
        match (digits_value(digits.drop_last(), radix), digit_value(digits.last(), radix)) {
            (Some(value), Some(digit)) => Some(value * radix + digit),
            _ => None,
        }
    }
}

/// The number that a text writes: an optional `+`, then at least one digit
/// and nothing but digits. A number above `max` is none.
pub open spec fn unsigned_value(text: Seq<char>, radix: nat, max: nat) -> Option<nat> {
    let digits = if text.len() > 0 && text[0] == '+' {
        text.skip(1)
    } else {
        text
    };
    if digits.len() == 0 {
        None
    } else {
        match digits_value(digits, radix) {
            Some(value) => if value <= max {
                Some(value)
            } else {
                None
            },
            None => None,
        }
    }
}

/// A run of digits writes at least as much as any of its beginnings.
pub proof fn lemma_digits_grow(digits: Seq<char>, radix: nat, shorter: int)
    requires
        0 <= shorter <= digits.len(),
        radix >= 1,
        digits_value(digits, radix) is Some,
    ensures
        digits_value(digits.take(shorter), radix) is Some,
        digits_value(digits.take(shorter), radix)->Some_0 <= digits_value(digits, radix)->Some_0,
    decreases digits.len(),
{
    if shorter == digits.len() {
        assert(digits.take(shorter) =~= digits);
    } else {
        let rest = digits.drop_last();
        assert(rest.take(shorter) =~= digits.take(shorter));
        lemma_digits_grow(rest, radix, shorter);
        let value = digits_value(rest, radix)->Some_0;
        assert(value <= value * radix) by (nonlinear_arith)
            requires
                radix >= 1,
                value >= 0,
        ;
    }
}

/// If a beginning of a run of characters writes no number, or a number
/// above the bound, the whole run writes none within the bound.
pub proof fn lemma_digits_fail(digits: Seq<char>, radix: nat, max: nat, shorter: int)
    requires
        0 <= shorter <= digits.len(),
        radix >= 1,
        match digits_value(digits.take(shorter), radix) {
            Some(value) => value > max,
            None => true,
        },
    ensures
        match digits_value(digits, radix) {
            Some(value) => value > max,
            None => true,
        },
{
    if digits_value(digits, radix) is Some {
        lemma_digits_grow(digits, radix, shorter);
    }
}

/// Returns the value of a character as a digit of the given radix.
fn digit_of(c: char, radix: u32) -> (digit: Option<u32>)
    requires
        radix <= 16,
    ensures
        match digit {
            Some(digit) => digit_value(c, radix as nat) == Some(digit as nat) && digit < radix,
            None => digit_value(c, radix as nat) is None,
        },
{
    let value: u32 = if '0' <= c && c <= '9' {
        c as u32 - '0' as u32
    } else if 'a' <= c && c <= 'f' {
        c as u32 - 'a' as u32 + 10
    } else if 'A' <= c && c <= 'F' {
        c as u32 - 'A' as u32 + 10
    } else {
        16
    };
    if value < radix {
        Some(value)
    } else {
        None
    }
}

/// Reads the number that the characters of `text` from `from` up to `to`
/// write in the given radix, if they write one that is at most `max`.
pub fn parse_unsigned(text: &str, from: usize, to: usize, radix: u32, max: u32) -> (value: Option<
    u32,
>)
    requires
        from <= to <= text@.len(),
        1 <= radix <= 16,
        max <= 0xFFFF,
    ensures
        match value {
            Some(value) => unsigned_value(
                text@.subrange(from as int, to as int),
                radix as nat,
                max as nat,
            ) == Some(value as nat),
            None => unsigned_value(text@.subrange(from as int, to as int), radix as nat, max as nat)
                is None,
        },
{
    let ghost part = text@.subrange(from as int, to as int);
    let mut at = from;
    if at < to && text.get_char(at) == '+' {
        at += 1;
    }
    let ghost digits = if part.len() > 0 && part[0] == '+' {
        part.skip(1)
    } else {
        part
    };
    if at == to {
        return None;
    }
    let start = at;
    let mut value: u32 = 0;
    while at < to
        invariant
            start <= at <= to <= text@.len(),
            1 <= radix <= 16,
            max <= 0xFFFF,
            value <= max,
            part == text@.subrange(from as int, to as int),
            digits == if part.len() > 0 && part[0] == '+' {
                part.skip(1)
            } else {
                part
            },
            digits.len() > 0,
            digits == text@.subrange(start as int, to as int),
            digits_value(digits.take(at - start), radix as nat) == Some(value as nat),
        decreases to - at,
    {
        let c = text.get_char(at);
        proof {
            assert(digits.take(at - start + 1).drop_last() =~= digits.take(at - start));
        }
        match digit_of(c, radix) {
            Some(digit) => {
                assert(value * radix + digit <= 0xFFFF * 16 + 16) by (nonlinear_arith)
                    requires
                        value <= 0xFFFF,
                        radix <= 16,
                        digit < 16,
                ;
                let next = value * radix + digit;
                if next > max {
                    proof {
                        lemma_digits_fail(digits, radix as nat, max as nat, at - start + 1);
                    }
                    return None;
                }
                value = next;
            },
            None => {
                proof {
                    lemma_digits_fail(digits, radix as nat, max as nat, at - start + 1);
                }
                return None;
            },
        }
        at += 1;
    }
    assert(digits.take(to - start) =~= digits);
    Some(value)
}

/// The position of the first `separator` at or after `from`: the length
/// where there is none.
pub open spec fn next_separator(text: Seq<char>, separator: char, from: int) -> int
    decreases text.len() - from,
{
    if from < 0 || from >= text.len() || text[from] == separator {
        from
    } else {
        next_separator(text, separator, from + 1)
    }
}

/// The bytes of a hardware address that the text from `from` on writes, if
/// it writes `count` more of them and nothing else: each byte in hexadecimal,
/// with a colon between one byte and the next.
pub open spec fn mac_bytes(text: Seq<char>, from: int, count: nat) -> Option<Seq<u8>>
    decreases count,
{
    if count == 0 || from < 0 || from > text.len() {
        None
    } else {
        let end = next_separator(text, ':', from);
        match unsigned_value(text.subrange(from, end), 16, 255) {
            Some(byte) => if count == 1 {
                if end == text.len() {
                    Some(seq![byte as u8])
                } else {
                    None
                }
            } else if end == text.len() {
                None
            } else {
                match mac_bytes(text, end + 1, (count - 1) as nat) {
                    Some(rest) => Some(seq![byte as u8] + rest),
                    None => None,
                }
            },
            None => None,
        }
    }
}

/// The hardware address that a text writes, white space at its ends aside:
/// six bytes in hexadecimal, with a colon between one byte and the next.
pub open spec fn mac_of_text(text: Seq<char>) -> Option<Seq<u8>> {
    mac_bytes(trimmed(text), 0, 6)
}

/// The interface type that a text writes, white space at its ends aside: a
/// decimal number of 16 bits.
pub open spec fn interface_type_of_text(text: Seq<char>) -> Option<nat> {
    unsigned_value(trimmed(text), 10, 0xFFFF)
}

/// The bytes read so far, followed by those that the rest of the text
/// writes, if it writes any.
pub open spec fn behind(done: Seq<u8>, rest: Option<Seq<u8>>) -> Option<Seq<u8>> {
    match rest {
        Some(rest) => Some(done + rest),
        None => None,
    }
}

/// Returns the bounds of the text without the white space at its ends.
fn trim_bounds(text: &str) -> (bounds: (usize, usize))
    ensures
        bounds.0 <= bounds.1 <= text@.len(),
        bounds.0 == trim_start(text@, 0),
        bounds.1 == trim_end(text@, bounds.0 as int, text@.len() as int),
        text@.subrange(bounds.0 as int, bounds.1 as int) == trimmed(text@),
{
    let len = text.unicode_len();
    let mut start: usize = 0;
    while start < len && is_space_char(text.get_char(start))
        invariant
            start <= len,
            len == text@.len(),
            trim_start(text@, start as int) == trim_start(text@, 0),
        decreases len - start,
    {
        start += 1;
    }
    let mut end: usize = len;
    while end > start && is_space_char(text.get_char(end - 1))
        invariant
            start <= end <= len,
            len == text@.len(),
            trim_end(text@, start as int, end as int) == trim_end(text@, start as int, len as int),
        decreases end - start,
    {
        end -= 1;
    }
    (start, end)
}

/// Checks whether a character is white space.
fn is_space_char(c: char) -> (space: bool)
    ensures
        space == is_space(c),
{
    ('\u{9}' <= c && c <= '\u{d}') || c == ' ' || c == '\u{85}' || c == '\u{a0}' || c
        == '\u{1680}' || ('\u{2000}' <= c && c <= '\u{200a}') || c == '\u{2028}' || c
        == '\u{2029}' || c == '\u{202f}' || c == '\u{205f}' || c == '\u{3000}'
}

/// Returns the position of the first colon at or after `from` and before
/// `to`: `to` where there is none.
fn find_colon(text: &str, from: usize, to: usize) -> (end: usize)
    requires
        from <= to <= text@.len(),
    ensures
        from <= end <= to,
        end == next_separator(text@.subrange(0, to as int), ':', from as int),
{
    let ghost scope = text@.subrange(0, to as int);
    let mut end = from;
    while end < to && text.get_char(end) != ':'
        invariant
            from <= end <= to <= text@.len(),
            scope == text@.subrange(0, to as int),
            next_separator(scope, ':', end as int) == next_separator(scope, ':', from as int),
        decreases to - end,
    {
        end += 1;
    }
    proof {
        if end < to {
            assert(scope[end as int] == text@[end as int]);
        }
    }
    end
}

/// Reads a hardware address from the content of the address file of a
/// network interface: six bytes in hexadecimal with colons between them,
/// with or without white space around them.
#[must_use]
pub fn read_mac(text: &str) -> (mac: Option<[u8; 6]>)
    ensures
        match mac {
            Some(mac) => mac_of_text(text@) == Some(mac@),
            None => mac_of_text(text@) is None,
        },
{
    let (start, end) = trim_bounds(text);
    let ghost scope = trimmed(text@);
    let mut mac: [u8; 6] = [0u8; 6];
    let mut from = start;
    let mut i: usize = 0;
    proof {
        match mac_bytes(scope, 0, 6) {
            Some(found) => {
                assert(mac@.take(0) + found =~= found);
            },
            None => {},
        }
    }
    while i < 6
        invariant
            i <= 6,
            start <= from <= end <= text@.len(),
            scope == text@.subrange(start as int, end as int),
            scope == trimmed(text@),
            mac_bytes(scope, 0, 6) == behind(
                mac@.take(i as int),
                mac_bytes(scope, from - start, (6 - i) as nat),
            ),
        decreases 6 - i,
    {
        let colon = find_colon(text, from, end);
        let ghost rest = mac_bytes(scope, from - start, (6 - i) as nat);
        proof {
            lemma_separator_in_scope(text@, start as int, end as int, from as int);
            assert(scope.subrange(from - start, colon - start) =~= text@.subrange(
                from as int,
                colon as int,
            ));
        }
        let byte = match parse_unsigned(text, from, colon, 16, 255) {
            Some(byte) => byte as u8,
            None => return None,
        };
        let ghost before = mac@;
        mac[i] = byte;
        if i == 5 {
            if colon != end {
                return None;
            }
            proof {
                assert(before.take(5) =~= mac@.take(5));
            }
            return Some(mac);
        }
        if colon == end {
            return None;
        }
        proof {
            match mac_bytes(scope, colon + 1 - start, (6 - (i + 1)) as nat) {
                Some(found) => {
                    assert(mac@.take(i as int) + (seq![byte] + found) =~= mac@.take(i + 1)
                        + found);
                },
                None => {},
            }
        }
        from = colon + 1;
        i += 1;
    }
    None
}

/// The next separator of a part of a text is the next separator of the
/// text up to the end of the part, moved by the start of the part.
pub proof fn lemma_separator_in_scope(text: Seq<char>, start: int, end: int, from: int)
    requires
        0 <= start <= from <= end <= text.len(),
    ensures
        next_separator(text.subrange(start, end), ':', from - start) + start == next_separator(
            text.subrange(0, end),
            ':',
            from,
        ),
    decreases end - from,
{
    let part = text.subrange(start, end);
    let whole = text.subrange(0, end);
    if from < end {
        assert(part[from - start] == whole[from]);
        if whole[from] != ':' {
            lemma_separator_in_scope(text, start, end, from + 1);
        }
    }
}

/// Reads the type of a network interface from the content of its type
/// file: a decimal number of 16 bits, with or without white space around it.
#[must_use]
pub fn get_interface_type(text: &str) -> (kind: Option<u16>)
    ensures
        match kind {
            Some(kind) => interface_type_of_text(text@) == Some(kind as nat),
            None => interface_type_of_text(text@) is None,
        },
{
    let (start, end) = trim_bounds(text);
    match parse_unsigned(text, start, end, 10, 0xFFFF) {
        Some(kind) => Some(kind as u16),
        None => None,
    }
}

} // verus!
