//! The authority of a URL as it is written: where it lies in the text, and
//! the port that it states.
//!
//! A URL parser leaves out a port that is the default of the scheme. Whether
//! a port is stated is therefore read off the text itself.

use vstd::prelude::*;
use crate::text::chars_of;
use crate::text::decimal;
use crate::text::digit_char;

verus! {

/// The first index from `from` up to `end` at which `c` stands, or `end`
/// where it stands nowhere.
pub open spec fn index_of(s: Seq<char>, from: int, end: int, c: char) -> int
    decreases end - from,
{
    if from >= end {
        end
    } else if s[from] == c {
        from
    } else {
        index_of(s, from + 1, end, c)
    }
}

/// The index after the last `c` between `from` and `end`, or `from` where
/// there is none.
pub open spec fn after_last(s: Seq<char>, from: int, end: int, c: char) -> int
    decreases end - from,
{
    if end <= from {
        from
    } else if s[end - 1] == c {
        end
    } else {
        after_last(s, from, end - 1, c)
    }
}

/// Whether a character ends the authority: the start of the path, of the
/// query or of the fragment.
pub open spec fn ends_authority(c: char) -> bool {
    c == '/' || c == '?' || c == '#' || c == '\\'
}

/// The first index from `from` on at which the authority ends, or the length
/// of the text.
pub open spec fn authority_end(s: Seq<char>, from: int) -> int
    decreases s.len() - from,
{
    if from >= s.len() {
        s.len() as int
    } else if ends_authority(s[from]) {
        from
    } else {
        authority_end(s, from + 1)
    }
}

/// The value of a decimal digit.
pub open spec fn digit_value(c: char) -> Option<nat> {
    if '0' <= c && c <= '9' {
        Some((c as u8 - 48) as nat)
    } else {
        None
    }
}

/// The number that a text of decimal digits writes; `None` for the empty
/// text and for a text with another character.
pub open spec fn number_of(s: Seq<char>) -> Option<nat>
    decreases s.len(),
{
    if s.len() == 0 {
        None
    } else {
        match digit_value(s.last()) {
            None => None,
            Some(d) => if s.len() == 1 {
                Some(d)
            } else {
                match number_of(s.drop_last()) {
                    Some(v) => Some(v * 10 + d),
                    None => None,
                }
            },
        }
    }
}

/// The port that a text writes: its number, where that is a number up to
/// 65535.
pub open spec fn port_value(s: Seq<char>) -> Option<u16> {
    match number_of(s) {
        Some(v) => if v <= 65535 {
            Some(v as u16)
        } else {
            None
        },
        None => None,
    }
}

/// Where the authority starts: after the first `:` of the text and the `//`
/// that follows it. `None` where the text has no such mark.
pub open spec fn authority_start(s: Seq<char>) -> Option<int> {
    let colon = index_of(s, 0, s.len() as int, ':');
    if colon + 2 < s.len() && s[colon + 1] == '/' && s[colon + 2] == '/' {
        Some(colon + 3)
    } else {
        None
    }
}

/// The port that the authority of a URL states, the default of the scheme
/// too. The authority lies between `://` and the next `/`, `?`, `#` or `\`;
/// credentials in it end at the last `@`. After them, the port is the digits
/// that follow the `]` and `:` of an address in brackets, or else the first
/// `:`, up to the end of the authority. There is none where no `:` stands
/// there or where what follows it is no number up to 65535.
pub open spec fn stated_port_of(target: Seq<char>) -> Option<u16> {
    match authority_start(target) {
        None => None,
        Some(start) => {
            let end = authority_end(target, start);
            let host = after_last(target, start, end, '@');
            if host < end && target[host] == '[' {
                let close = index_of(target, host, end, ']');
                if close + 1 < end && target[close + 1] == ':' {
                    port_value(target.subrange(close + 2, end))
                } else {
                    None
                }
            } else {
                let colon = index_of(target, host, end, ':');
                if colon < end {
                    port_value(target.subrange(colon + 1, end))
                } else {
                    None
                }
            }
        },
    }
}

/// The port of a URL where one is stated: the port that the parser reports
/// and, where it reports none, as it does for the default of the scheme, the
/// port that the text states.
pub open spec fn explicit_port(parsed: Option<u16>, stated: Option<u16>) -> Option<u16> {
    match parsed {
        Some(port) => Some(port),
        None => stated,
    }
}

fn find(chars: &Vec<char>, from: usize, end: usize, c: char) -> (r: usize)
    requires
        from <= end <= chars.len(),
    ensures
        r == index_of(chars@, from as int, end as int, c),
        from <= r <= end,
{
    let mut i = from;
    while i < end
        invariant
            from <= i <= end <= chars.len(),
            index_of(chars@, i as int, end as int, c) == index_of(chars@, from as int, end as int, c),
        decreases end - i,
    {
        if chars[i] == c {
            return i;
        }
        i += 1;
    }
    i
}

fn find_after_last(chars: &Vec<char>, from: usize, end: usize, c: char) -> (r: usize)
    requires
        from <= end <= chars.len(),
    ensures
        r == after_last(chars@, from as int, end as int, c),
        from <= r <= end,
{
    let mut i = end;
    while i > from
        invariant
            from <= i <= end <= chars.len(),
            after_last(chars@, from as int, i as int, c) == after_last(
                chars@,
                from as int,
                end as int,
                c,
            ),
        decreases i - from,
    {
        if chars[i - 1] == c {
            return i;
        }
        i -= 1;
    }
    i
}

fn find_authority_end(chars: &Vec<char>, from: usize) -> (r: usize)
    requires
        from <= chars.len(),
    ensures
        r == authority_end(chars@, from as int),
        from <= r <= chars.len(),
{
    let mut i = from;
    while i < chars.len()
        invariant
            from <= i <= chars.len(),
            authority_end(chars@, i as int) == authority_end(chars@, from as int),
        decreases chars.len() - i,
    {
        let c = chars[i];
        if c == '/' || c == '?' || c == '#' || c == '\\' {
            return i;
        }
        i += 1;
    }
    i
}

fn digit_of(c: char) -> (r: Option<u32>)
    ensures
        match digit_value(c) {
            Some(d) => r == Some(d as u32) && d <= 9,
            None => r is None,
        },
{
    if '0' <= c && c <= '9' {
        Some((c as u8 - 48) as u32)
    } else {
        None
    }
}

/// A number that starts with a number above 65535 is above 65535.
proof fn lemma_number_grows(s: Seq<char>, k: int)
    requires
        0 < k <= s.len(),
        number_of(s.take(k)) matches Some(v) && v > 65535,
    ensures
        number_of(s) matches Some(v) ==> v > 65535,
    decreases s.len() - k,
{
    if k < s.len() {
        assert(s.take(k + 1).drop_last() == s.take(k));
        if number_of(s.take(k + 1)) is Some {
            lemma_number_grows(s, k + 1);
        } else {
            lemma_number_stays_none(s, k + 1);
        }
    } else {
        assert(s.take(k) == s);
    }
}

/// A text that starts with what is no number is no number.
proof fn lemma_number_stays_none(s: Seq<char>, k: int)
    requires
        0 < k <= s.len(),
        number_of(s.take(k)) is None,
    ensures
        number_of(s) is None,
    decreases s.len() - k,
{
    if k < s.len() {
        assert(s.take(k + 1).drop_last() == s.take(k));
        lemma_number_stays_none(s, k + 1);
    } else {
        assert(s.take(k) == s);
    }
}

/// Reads the port that the characters from `from` up to `end` write.
fn read_port(chars: &Vec<char>, from: usize, end: usize) -> (r: Option<u16>)
    requires
        from <= end <= chars.len(),
    ensures
        r == port_value(chars@.subrange(from as int, end as int)),
{
    let ghost text = chars@.subrange(from as int, end as int);
    if from == end {
        return None;
    }
    let mut value: u32 = 0;
    let mut i = from;
    while i < end
        invariant
            from <= i <= end <= chars.len(),
            text == chars@.subrange(from as int, end as int),
            value <= 65535,
            i == from ==> value == 0,
            i > from ==> number_of(text.take(i - from)) == Some(value as nat),
        decreases end - i,
    {
        let ghost k = i - from;
        assert(text.take(k + 1).drop_last() == text.take(k));
        assert(text.take(k + 1).last() == chars@[i as int]);
        match digit_of(chars[i]) {
            Some(d) => {
                let next = value * 10 + d;
                if next > 65535 {
                    proof {
                        assert(number_of(text.take(k + 1)) == Some(next as nat));
                        lemma_number_grows(text, k + 1);
                    }
                    return None;
                }
                value = next;
            },
            None => {
                proof {
                    assert(number_of(text.take(k + 1)) is None);
                    lemma_number_stays_none(text, k + 1);
                }
                return None;
            },
        }
        i += 1;
    }
    assert(text.take(end - from) == text);
    Some(value as u16)
}

/// Reads the port that the authority of a URL states.
pub fn stated_port(target: &str) -> (r: Option<u16>)
    ensures
        r == stated_port_of(target@),
{
    let chars = chars_of(target);
    let n = chars.len();
    let colon = find(&chars, 0, n, ':');
    if !(n >= 3 && colon < n - 2 && chars[colon + 1] == '/' && chars[colon + 2] == '/') {
        return None;
    }
    let start = colon + 3;
    let end = find_authority_end(&chars, start);
    let host = find_after_last(&chars, start, end, '@');
    if host < end && chars[host] == '[' {
        let close = find(&chars, host, end, ']');
        if close < end && close + 1 < end && chars[close + 1] == ':' {
            read_port(&chars, close + 2, end)
        } else {
            None
        }
    } else {
        let port_colon = find(&chars, host, end, ':');
        if port_colon < end {
            read_port(&chars, port_colon + 1, end)
        } else {
            None
        }
    }
}

/// Chooses the port of a URL where one is stated: the one that the parser
/// reports, else the one that the text states.
pub fn choose_port(parsed: Option<u16>, stated: Option<u16>) -> (r: Option<u16>)
    ensures
        r == explicit_port(parsed, stated),
{
    match parsed {
        Some(port) => Some(port),
        None => stated,
    }
}

proof fn lemma_index_of(s: Seq<char>, from: int, end: int, c: char, k: int)
    requires
        0 <= from <= k <= end <= s.len(),
        forall|i: int| from <= i < k ==> s[i] != c,
        k == end || s[k] == c,
    ensures
        index_of(s, from, end, c) == k,
    decreases k - from,
{
    if from < k {
        lemma_index_of(s, from + 1, end, c, k);
    }
}

proof fn lemma_after_last(s: Seq<char>, from: int, end: int, c: char)
    requires
        0 <= from <= end <= s.len(),
        forall|i: int| from <= i < end ==> s[i] != c,
    ensures
        after_last(s, from, end, c) == from,
    decreases end - from,
{
    if from < end {
        lemma_after_last(s, from, end - 1, c);
    }
}

proof fn lemma_authority_end(s: Seq<char>, from: int, k: int)
    requires
        0 <= from <= k <= s.len(),
        forall|i: int| from <= i < k ==> !ends_authority(s[i]),
        k == s.len() || ends_authority(s[k]),
    ensures
        authority_end(s, from) == k,
    decreases k - from,
{
    if from < k {
        lemma_authority_end(s, from + 1, k);
    }
}

/// Every character of a decimal numeral is a digit.
proof fn lemma_decimal_is_digits(n: nat)
    ensures
        decimal(n).len() >= 1,
        forall|i: int| 0 <= i < decimal(n).len() ==> digit_value(#[trigger] decimal(n)[i]) is Some,
    decreases n,
{
    if n >= 10 {
        lemma_decimal_is_digits(n / 10);
        assert forall|i: int| 0 <= i < decimal(n).len() implies digit_value(
            #[trigger] decimal(n)[i],
        ) is Some by {
            if i < decimal(n / 10).len() {
                assert(decimal(n)[i] == decimal(n / 10)[i]);
            }
        }
    }
}

/// The number that a decimal numeral writes is the number of the numeral.
pub proof fn lemma_number_of_decimal(n: nat)
    ensures
        number_of(decimal(n)) == Some(n),
    decreases n,
{
    if n >= 10 {
        lemma_number_of_decimal(n / 10);
        lemma_decimal_is_digits(n / 10);
        assert(decimal(n).drop_last() == decimal(n / 10));
        assert(decimal(n).last() == digit_char(n % 10));
    }
}

/// A port that is written is the port that is read. For a scheme without
/// `:`, a host without `:`, `@`, `[` at its start or a character that ends
/// the authority, and a rest that is empty or starts the path, the query or
/// the fragment, the text `scheme://host:port` and the rest states the port,
/// whatever its number: the default of the scheme too.
pub proof fn law_written_port_is_stated(
    scheme: Seq<char>,
    host: Seq<char>,
    port: u16,
    rest: Seq<char>,
)
    requires
        forall|i: int| 0 <= i < scheme.len() ==> scheme[i] != ':',
        forall|i: int|
            0 <= i < host.len() ==> host[i] != ':' && host[i] != '@' && !ends_authority(host[i]),
        host.len() > 0 ==> host[0] != '[',
        rest.len() > 0 ==> ends_authority(rest[0]),
    ensures
        stated_port_of(
            scheme + seq![':', '/', '/'] + host + seq![':'] + decimal(port as nat) + rest,
        ) == Some(port),
{
    let digits = decimal(port as nat);
    let text = scheme + seq![':', '/', '/'] + host + seq![':'] + digits + rest;
    let colon = scheme.len() as int;
    let start = colon + 3;
    let port_colon = start + host.len();
    let end = port_colon + 1 + digits.len();
    lemma_decimal_is_digits(port as nat);
    lemma_number_of_decimal(port as nat);
    assert(text.len() == end + rest.len());
    assert forall|i: int| 0 <= i < colon implies text[i] != ':' by {
        assert(text[i] == scheme[i]);
    }
    assert(text[colon] == ':' && text[colon + 1] == '/' && text[colon + 2] == '/');
    lemma_index_of(text, 0, text.len() as int, ':', colon);
    assert(authority_start(text) == Some(start));
    assert forall|i: int| start <= i < end implies !ends_authority(text[i]) by {
        if i < port_colon {
            assert(text[i] == host[i - start]);
        } else if i == port_colon {
            assert(text[i] == ':');
        } else {
            assert(text[i] == digits[i - port_colon - 1]);
            assert(digit_value(digits[i - port_colon - 1]) is Some);
        }
    }
    if rest.len() > 0 {
        assert(text[end] == rest[0]);
    }
    lemma_authority_end(text, start, end);
    assert forall|i: int| start <= i < end implies text[i] != '@' by {
        if i < port_colon {
            assert(text[i] == host[i - start]);
        } else if i == port_colon {
            assert(text[i] == ':');
        } else {
            assert(text[i] == digits[i - port_colon - 1]);
            assert(digit_value(digits[i - port_colon - 1]) is Some);
        }
    }
    lemma_after_last(text, start, end, '@');
    assert(text[start] != '[') by {
        if host.len() > 0 {
            assert(text[start] == host[0]);
        } else {
            assert(text[start] == ':');
        }
    }
    assert forall|i: int| start <= i < port_colon implies text[i] != ':' by {
        assert(text[i] == host[i - start]);
    }
    assert(text[port_colon] == ':');
    lemma_index_of(text, start, end, ':', port_colon);
    assert(text.subrange(port_colon + 1, end) == digits);
}

} // verus!
