//! IPv4 addresses and the strict dotted-quad notation.
use vstd::prelude::*;

verus! {

/// An IPv4 address, by its four octets from the most significant.
#[derive(Debug, Clone, Copy, PartialEq, Eq, Structural)]
pub struct Ipv4Address {
    pub a: u8,
    pub b: u8,
    pub c: u8,
    pub d: u8,
}

impl Ipv4Address {
    /// `0.0.0.0`, which a provider reports before it has assigned an address.
    pub open spec fn is_placeholder(&self) -> bool {
        self.a == 0 && self.b == 0 && self.c == 0 && self.d == 0
    }

    pub fn is_unspecified(&self) -> (r: bool)
        ensures
            r == self.is_placeholder(),
    {
        self.a == 0 && self.b == 0 && self.c == 0 && self.d == 0
    }
}

pub open spec fn is_digit(c: char) -> bool {
    '0' <= c && c <= '9'
}

/// The value of a string of decimal digits.
pub open spec fn digits_value(t: Seq<char>) -> nat
    decreases t.len(),
{
    if t.len() == 0 {
        0
    } else {
        digits_value(t.drop_last()) * 10 + (t.last() as nat - '0' as nat) as nat
    }
}

/// One octet in dotted-quad notation: one to three decimal digits, no
/// leading zero unless the octet is `0`, and a value of at most 255.
pub open spec fn is_octet_text(t: Seq<char>) -> bool {
    &&& 1 <= t.len() <= 3
    &&& forall|i: int| 0 <= i < t.len() ==> #[trigger] is_digit(t[i])
    &&& (t.len() > 1 ==> t[0] != '0')
    &&& digits_value(t) <= 255
}

/// The pieces of `s` between dots, in order: one more than there are dots.
pub open spec fn split_on_dots(s: Seq<char>) -> Seq<Seq<char>>
    decreases s.len(),
{
    if s.len() == 0 {
        seq![Seq::empty()]
    } else {
        let rest = split_on_dots(s.drop_last());
        if s.last() == '.' {
            rest.push(Seq::empty())
        } else {
            rest.update(rest.len() - 1, rest.last().push(s.last()))
        }
    }
}

/// The address that `s` writes in strict dotted-quad notation, if it is one.
pub open spec fn dotted_quad(s: Seq<char>) -> Option<Ipv4Address> {
    let parts = split_on_dots(s);
    if parts.len() == 4 && is_octet_text(parts[0]) && is_octet_text(parts[1]) && is_octet_text(
        parts[2],
    ) && is_octet_text(parts[3]) {
        Some(
            Ipv4Address {
                a: digits_value(parts[0]) as u8,
                b: digits_value(parts[1]) as u8,
                c: digits_value(parts[2]) as u8,
                d: digits_value(parts[3]) as u8,
            },
        )
    } else {
        None
    }
}

/// The total length of the pieces, counting one separator after each.
pub open spec fn pieces_len(parts: Seq<Seq<char>>) -> int
    decreases parts.len(),
{
    if parts.len() == 0 {
        0
    } else {
        pieces_len(parts.drop_last()) + parts.last().len() + 1
    }
}

proof fn lemma_split_len(s: Seq<char>)
    ensures
        split_on_dots(s).len() >= 1,
        pieces_len(split_on_dots(s)) == s.len() + 1,
    decreases s.len(),
{
    if s.len() == 0 {
        let parts = seq![Seq::<char>::empty()];
        assert(parts.drop_last() =~= Seq::<Seq<char>>::empty());
        assert(pieces_len(parts) == pieces_len(parts.drop_last()) + parts.last().len() + 1);
    } else {
        let rest = split_on_dots(s.drop_last());
        lemma_split_len(s.drop_last());
        assert(pieces_len(rest) == pieces_len(rest.drop_last()) + rest.last().len() + 1);
        if s.last() == '.' {
            let parts = rest.push(Seq::empty());
            assert(parts.drop_last() =~= rest);
            assert(pieces_len(parts) == pieces_len(parts.drop_last()) + parts.last().len() + 1);
        } else {
            let parts = rest.update(rest.len() - 1, rest.last().push(s.last()));
            assert(parts.drop_last() =~= rest.drop_last());
            assert(pieces_len(parts) == pieces_len(parts.drop_last()) + parts.last().len() + 1);
        }
    }
}

proof fn lemma_quad_short(s: Seq<char>)
    requires
        dotted_quad(s) is Some,
    ensures
        s.len() <= 15,
{
    let p = split_on_dots(s);
    lemma_split_len(s);
    let first_three = p.drop_last();
    let first_two = first_three.drop_last();
    let first_one = first_two.drop_last();
    let no_pieces = first_one.drop_last();
    assert(no_pieces =~= Seq::<Seq<char>>::empty());
    assert(pieces_len(no_pieces) == 0);
    assert(pieces_len(first_one) == pieces_len(no_pieces) + first_one.last().len() + 1);
    assert(pieces_len(first_two) == pieces_len(first_one) + first_two.last().len() + 1);
    assert(pieces_len(first_three) == pieces_len(first_two) + first_three.last().len() + 1);
    assert(pieces_len(p) == pieces_len(first_three) + p.last().len() + 1);
    assert(first_one.last() == p[0]);
    assert(first_two.last() == p[1]);
    assert(first_three.last() == p[2]);
}

/// Reads one octet in dotted-quad notation.
fn parse_octet(t: &Vec<char>) -> (r: Option<u8>)
    ensures
        is_octet_text(t@) ==> r == Some(digits_value(t@) as u8),
        !is_octet_text(t@) ==> r is None,
{
    if t.len() == 0 || t.len() > 3 {
        return None;
    }
    if t.len() > 1 && t[0] == '0' {
        return None;
    }
    let mut v: u32 = 0;
    let mut i: usize = 0;
    while i < t.len()
        invariant
            i <= t@.len() <= 3,
            v == digits_value(t@.take(i as int)),
            v < 1000,
            i == 0 ==> v == 0,
            i == 1 ==> v < 10,
            i == 2 ==> v < 100,
            forall|j: int| 0 <= j < i ==> #[trigger] is_digit(t@[j]),
        decreases t.len() - i,
    {
        let ch = t[i];
        if !('0' <= ch && ch <= '9') {
            assert(!is_digit(t@[i as int]));
            return None;
        }
        assert(t@.take(i + 1).drop_last() =~= t@.take(i as int));
        v = v * 10 + (ch as u32 - '0' as u32);
        i = i + 1;
    }
    assert(t@.take(i as int) =~= t@);
    if v > 255 {
        None
    } else {
        Some(v as u8)
    }
}

/// Reads `s` as an IPv4 address in strict dotted-quad notation: four
/// decimal octets separated by dots, with nothing around them.
pub fn parse_ipv4(s: &str) -> (r: Option<Ipv4Address>)
    ensures
        r == dotted_quad(s@),
{
    let n = s.unicode_len();
    if n > 15 {
        proof {
            if dotted_quad(s@) is Some {
                lemma_quad_short(s@);
            }
        }
        return None;
    }
    let mut done: Vec<Vec<char>> = Vec::new();
    let mut cur: Vec<char> = Vec::new();
    let mut i: usize = 0;
    assert(s@.take(0) =~= Seq::<char>::empty());
    while i < n
        invariant
            n == s@.len(),
            i <= n,
            split_on_dots(s@.take(i as int)) =~= done@.map_values(|g: Vec<char>| g@).push(cur@),
        decreases n - i,
    {
        let ch = s.get_char(i);
        assert(s@.take(i + 1).drop_last() =~= s@.take(i as int));
        if ch == '.' {
            done.push(cur);
            cur = Vec::new();
        } else {
            cur.push(ch);
        }
        i = i + 1;
    }
    assert(s@.take(n as int) =~= s@);
    if done.len() != 3 {
        return None;
    }
    let a = parse_octet(&done[0]);
    let b = parse_octet(&done[1]);
    let c = parse_octet(&done[2]);
    let d = parse_octet(&cur);
    match (a, b, c, d) {
        (Some(a), Some(b), Some(c), Some(d)) => Some(Ipv4Address { a, b, c, d }),
        _ => None,
    }
}

} // verus!
