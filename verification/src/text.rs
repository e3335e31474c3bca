//! Text that the proxy reads and writes: decimal numbers, and the host name
//! inside a `Host` header.

use vstd::prelude::*;
use vstd::string::*;
use vstd::std_specs::iter::IteratorSpec;

verus! {

/// The character that stands for the decimal digit `d`.
pub open spec fn digit_char(d: int) -> char {
    if d == 0 {
        '0'
    } else if d == 1 {
        '1'
    } else if d == 2 {
        '2'
    } else if d == 3 {
        '3'
    } else if d == 4 {
        '4'
    } else if d == 5 {
        '5'
    } else if d == 6 {
        '6'
    } else if d == 7 {
        '7'
    } else if d == 8 {
        '8'
    } else {
        '9'
    }
}

/// `n` written in decimal, without sign or leading zeros: `decimal(0)` is `"0"`
/// and `decimal(9000)` is `"9000"`.
pub open spec fn decimal(n: nat) -> Seq<char>
    decreases n,
{
    if n < 10 {
        seq![digit_char(n as int)]
    } else {
        decimal(n / 10).push(digit_char((n % 10) as int))
    }
}

/// The position of the first `c` in `s`, or `s.len()` where `s` holds none.
pub open spec fn first_index(s: Seq<char>, c: char) -> int
    decreases s.len(),
{
    if s.len() == 0 {
        0
    } else if s[0] == c {
        0
    } else {
        1 + first_index(s.drop_first(), c)
    }
}

/// The host name inside the value of a `Host` header, which is a name
/// optionally followed by `:` and a port. A name that opens with `[` is an
/// IPv6 literal and runs through its closing `]`; any other name runs up to
/// the first `:`. A value without a port is its own host name.
pub open spec fn name_part(host: Seq<char>) -> Seq<char> {
    if host.len() > 0 && host[0] == '[' && first_index(host, ']') < host.len() {
        host.subrange(0, first_index(host, ']') + 1)
    } else {
        host.subrange(0, first_index(host, ':'))
    }
}

/// What `first_index` finds: a position within `s` or just past its end, with
/// no `c` before it and, unless it is the end, a `c` at it.
pub proof fn lemma_first_index(s: Seq<char>, c: char)
    ensures
        0 <= first_index(s, c) <= s.len(),
        forall|j: int| 0 <= j < first_index(s, c) ==> s[j] != c,
        first_index(s, c) < s.len() ==> s[first_index(s, c)] == c,
    decreases s.len(),
{
    if s.len() > 0 && s[0] != c {
        let rest = s.drop_first();
        lemma_first_index(rest, c);
        assert forall|j: int| 0 <= j < first_index(s, c) implies s[j] != c by {
            if j > 0 {
                assert(s[j] == rest[j - 1]);
            }
        }
        assert(s[first_index(s, c)] == rest[first_index(rest, c)] || first_index(s, c) == s.len());
    }
}

/// A position `at` with the three properties of `lemma_first_index` is the
/// first index.
pub proof fn lemma_first_index_unique(s: Seq<char>, c: char, at: int)
    requires
        0 <= at <= s.len(),
        forall|j: int| 0 <= j < at ==> s[j] != c,
        at < s.len() ==> s[at] == c,
    ensures
        first_index(s, c) == at,
{
    lemma_first_index(s, c);
    let f = first_index(s, c);
    if f < at {
        assert(s[f] != c);
    } else if at < f {
        assert(s[at] != c);
    }
}

/// The one-character string for the digit `d`.
fn digit_str(d: u16) -> (s: &'static str)
    requires
        d < 10,
    ensures
        s@ == seq![digit_char(d as int)],
{
    proof {
        reveal_strlit("0");
        reveal_strlit("1");
        reveal_strlit("2");
        reveal_strlit("3");
        reveal_strlit("4");
        reveal_strlit("5");
        reveal_strlit("6");
        reveal_strlit("7");
        reveal_strlit("8");
        reveal_strlit("9");
    }
    let s = if d == 0 {
        "0"
    } else if d == 1 {
        "1"
    } else if d == 2 {
        "2"
    } else if d == 3 {
        "3"
    } else if d == 4 {
        "4"
    } else if d == 5 {
        "5"
    } else if d == 6 {
        "6"
    } else if d == 7 {
        "7"
    } else if d == 8 {
        "8"
    } else {
        "9"
    };
    assert(s@ =~= seq![digit_char(d as int)]);
    s
}

/// Appends `n` in decimal to `out`.
pub fn push_decimal(out: &mut String, n: u16)
    ensures
        final(out)@ == old(out)@ + decimal(n as nat),
    decreases n,
{
    if n >= 10 {
        push_decimal(out, n / 10);
    }
    out.append(digit_str(n % 10));
    assert(out@ =~= old(out)@ + decimal(n as nat));
}

/// `n` in decimal, as a string of its own.
pub fn decimal_string(n: u16) -> (s: String)
    ensures
        s@ == decimal(n as nat),
{
    let mut s = String::new();
    push_decimal(&mut s, n);
    assert(s@ =~= decimal(n as nat));
    s
}

/// Finds the first `c` in `s`, counting characters, not bytes.
pub fn find_char(s: &str, c: char) -> (at: usize)
    ensures
        at == first_index(s@, c),
{
    broadcast use vstd::string::group_string_axioms;

    let len = s.unicode_len();
    let mut at: usize = 0;
    let mut rest = s.chars();
    while at < len
        invariant
            len == s@.len(),
            at <= len,
            rest.obeys_prophetic_iter_laws(),
            rest.remaining() == s@.skip(at as int),
            forall|j: int| 0 <= j < at ==> s@[j] != c,
        decreases len - at,
    {
        let next = rest.next();
        assert(s@.skip(at as int)[0] == s@[at as int]);
        assert(s@.skip(at as int).drop_first() =~= s@.skip(at + 1));
        if next == Some(c) {
            proof {
                lemma_first_index_unique(s@, c, at as int);
            }
            return at;
        }
        at += 1;
    }
    proof {
        lemma_first_index_unique(s@, c, at as int);
    }
    at
}

/// The host name inside the value of a `Host` header: the value without its
/// port.
pub fn host_name<'a>(host: &'a str) -> (name: &'a str)
    ensures
        name@ == name_part(host@),
{
    let len = host.unicode_len();
    if len > 0 && host.get_char(0) == '[' {
        let close = find_char(host, ']');
        if close < len {
            return host.substring_char(0, close + 1);
        }
    }
    let colon = find_char(host, ':');
    proof {
        lemma_first_index(host@, ':');
    }
    host.substring_char(0, colon)
}

} // verus!
