//! Bind-address parsing: a dotted IPv4 host string and a decimal port, each
//! falling back to a default when it does not parse.
use vstd::prelude::*;

verus! {

/// Port used when the configured value does not parse.
pub const DEFAULT_PORT: u16 = 8080;

pub open spec fn is_digit(c: char) -> bool {
    '0' <= c && c <= '9'
}

/// Value of a string of decimal digits, read from the left.
pub open spec fn digits_value(s: Seq<char>) -> int
    decreases s.len(),
{
    if s.len() == 0 {
        0
    } else {
        digits_value(s.drop_last()) * 10 + (s.last() as int - '0' as int)
    }
}

/// The digits of an unsigned decimal: the text after one optional leading `+`.
pub open spec fn unsigned_body(s: Seq<char>) -> Seq<char> {
    if s.len() > 0 && s[0] == '+' {
        s.drop_first()
    } else {
        s
    }
}

/// The unsigned decimal that `s` spells, if it spells one no greater than
/// `max`: an optional `+` and then at least one digit, nothing else.
pub open spec fn parse_unsigned(s: Seq<char>, max: int) -> Option<int> {
    let body = unsigned_body(s);
    if body.len() > 0 && (forall|i: int| 0 <= i < body.len() ==> is_digit(#[trigger] body[i]))
        && digits_value(body) <= max {
        Some(digits_value(body))
    } else {
        None
    }
}

/// `s` cut at every occurrence of `sep`; always at least one piece.
pub open spec fn split_on(s: Seq<char>, sep: char) -> Seq<Seq<char>>
    decreases s.len(),
{
    if s.len() == 0 {
        seq![Seq::empty()]
    } else {
        let pieces = split_on(s.drop_last(), sep);
        if s.last() == sep {
            pieces.push(Seq::empty())
        } else {
            pieces.update(pieces.len() - 1, pieces.last().push(s.last()))
        }
    }
}

/// The four octets that `host` spells in dotted form, or the loopback address
/// when it is not exactly four dot-separated numbers each at most 255.
pub open spec fn host_octets(host: Seq<char>) -> Seq<u8> {
    let parts = split_on(host, '.');
    if parts.len() == 4 && (forall|i: int|
        0 <= i < 4 ==> (#[trigger] parse_unsigned(parts[i], 255)) is Some) {
        Seq::new(4, |i: int| parse_unsigned(parts[i], 255)->0 as u8)
    } else {
        seq![127u8, 0, 0, 1]
    }
}

/// The port that `s` spells, or the default port when it does not parse as a
/// 16-bit unsigned number.
pub open spec fn port_of(s: Seq<char>) -> u16 {
    match parse_unsigned(s, 65535) {
        Some(v) => v as u16,
        None => DEFAULT_PORT,
    }
}

proof fn lemma_saturated_step(v: int, d: int, max: int)
    requires
        0 <= v,
        0 <= d <= 9,
        0 <= max,
    ensures
        ({
            let s = if v < max + 1 { v } else { max + 1 };
            let a = 10 * s + d;
            let b = 10 * v + d;
            (if a < max + 1 { a } else { max + 1 }) == (if b < max + 1 { b } else { max + 1 })
        }),
{
    if v >= max + 1 {
        assert(10 * v + d >= max + 1) by (nonlinear_arith)
            requires v >= max + 1, d >= 0, max >= 0;
        assert(10 * (max + 1) + d >= max + 1) by (nonlinear_arith)
            requires d >= 0, max >= 0;
    }
}

proof fn lemma_digits_value_nonneg(s: Seq<char>)
    requires
        forall|i: int| 0 <= i < s.len() ==> is_digit(#[trigger] s[i]),
    ensures
        digits_value(s) >= 0,
    decreases s.len(),
{
    if s.len() > 0 {
        assert(is_digit(s[s.len() - 1]));
        lemma_digits_value_nonneg(s.drop_last());
    }
}

/// Reads the unsigned decimal in `field`, if it is one no greater than `max`.
fn parse_decimal(field: &Vec<char>, max: u32) -> (r: Option<u32>)
    requires
        max <= 65535,
    ensures
        r matches Some(v) ==> parse_unsigned(field@, max as int) == Some(v as int),
        r is None ==> parse_unsigned(field@, max as int) is None,
{
    let n = field.len();
    let start: usize = if n > 0 && field[0] == '+' {
        1
    } else {
        0
    };
    let ghost body = unsigned_body(field@);
    assert(body == field@.subrange(start as int, n as int));
    if start == n {
        return None;
    }
    let mut acc: u32 = 0;
    let mut i: usize = start;
    while i < n
        invariant
            start <= i <= n,
            n == field@.len(),
            max <= 65535,
            body == field@.subrange(start as int, n as int),
            body == unsigned_body(field@),
            forall|j: int| 0 <= j < i - start ==> is_digit(#[trigger] body[j]),
            acc as int == (if digits_value(body.subrange(0, i - start)) < max + 1 {
                digits_value(body.subrange(0, i - start))
            } else {
                max + 1
            }),
        decreases n - i,
    {
        let c = field[i];
        assert(body[i - start] == c);
        if c < '0' || c > '9' {
            assert(!is_digit(body[i - start]));
            return None;
        }
        let d: u32 = (c as u32) - ('0' as u32);
        let ghost prefix = body.subrange(0, i - start);
        let ghost next = body.subrange(0, i + 1 - start);
        assert(next.drop_last() == prefix);
        assert(next.last() == c);
        proof {
            lemma_digits_value_nonneg(prefix);
            lemma_saturated_step(digits_value(prefix), d as int, max as int);
        }
        let step = acc * 10 + d;
        acc = if step < max + 1 {
            step
        } else {
            max + 1
        };
        i = i + 1;
    }
    assert(body.subrange(0, n - start) == body);
    if acc <= max {
        Some(acc)
    } else {
        None
    }
}

/// Cuts `s` at every occurrence of `sep`.
fn split_chars(s: &str, sep: char) -> (r: Vec<Vec<char>>)
    ensures
        r@.map_values(|p: Vec<char>| p@) == split_on(s@, sep),
{
    let n = s.unicode_len();
    let mut done: Vec<Vec<char>> = Vec::new();
    let mut current: Vec<char> = Vec::new();
    let mut i: usize = 0;
    while i < n
        invariant
            n == s@.len(),
            i <= n,
            done@.map_values(|p: Vec<char>| p@).push(current@) == split_on(
                s@.subrange(0, i as int),
                sep,
            ),
        decreases n - i,
    {
        let c = s.get_char(i);
        let ghost before = done@.map_values(|p: Vec<char>| p@).push(current@);
        assert(s@.subrange(0, i + 1).drop_last() == s@.subrange(0, i as int));
        if c == sep {
            done.push(current);
            current = Vec::new();
            assert(done@.map_values(|p: Vec<char>| p@).push(current@) == before.push(
                Seq::empty(),
            ));
        } else {
            current.push(c);
            assert(done@.map_values(|p: Vec<char>| p@).push(current@) == before.update(
                before.len() - 1,
                before.last().push(c),
            ));
        }
        i = i + 1;
    }
    assert(s@.subrange(0, n as int) == s@);
    done.push(current);
    done
}

/// The bind address that `host` spells in dotted form, or `127.0.0.1` when it
/// is not exactly four dot-separated unsigned 8-bit numbers.
pub fn parse_host(host: &str) -> (r: [u8; 4])
    ensures
        r@ == host_octets(host@),
{
    let parts = split_chars(host, '.');
    let ghost views = parts@.map_values(|p: Vec<char>| p@);
    let loopback: [u8; 4] = [127, 0, 0, 1];
    if parts.len() != 4 {
        assert(loopback@ == seq![127u8, 0, 0, 1]);
        return loopback;
    }
    let mut octets: [u8; 4] = [0, 0, 0, 0];
    let mut i: usize = 0;
    while i < 4
        invariant
            parts.len() == 4,
            views == parts@.map_values(|p: Vec<char>| p@),
            views == split_on(host@, '.'),
            i <= 4,
            octets@.len() == 4,
            forall|j: int| 0 <= j < i ==> (#[trigger] parse_unsigned(views[j], 255)) is Some,
            forall|j: int| 0 <= j < i ==> octets@[j] == parse_unsigned(views[j], 255)->0 as u8,
        decreases 4 - i,
    {
        assert(views[i as int] == parts@[i as int]@);
        match parse_decimal(&parts[i], 255) {
            Some(v) => {
                octets[i] = v as u8;
            },
            None => {
                assert(!(parse_unsigned(views[i as int], 255) is Some));
                let fallback: [u8; 4] = [127, 0, 0, 1];
                assert(fallback@ == seq![127u8, 0, 0, 1]);
                return fallback;
            },
        }
        i = i + 1;
    }
    assert(octets@ == Seq::new(4, |j: int| parse_unsigned(views[j], 255)->0 as u8));
    octets
}

/// The port that `port` spells, or 8080 when it is not an unsigned 16-bit
/// number.
pub fn parse_port(port: &str) -> (r: u16)
    ensures
        r == port_of(port@),
{
    let n = port.unicode_len();
    let mut chars: Vec<char> = Vec::new();
    let mut i: usize = 0;
    while i < n
        invariant
            n == port@.len(),
            i <= n,
            chars@ == port@.subrange(0, i as int),
        decreases n - i,
    {
        chars.push(port.get_char(i));
        assert(chars@ == port@.subrange(0, i + 1));
        i = i + 1;
    }
    assert(chars@ == port@);
    match parse_decimal(&chars, 65535) {
        Some(v) => v as u16,
        None => DEFAULT_PORT,
    }
}

} // verus!
