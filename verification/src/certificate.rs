//! How deep the encoding of a certificate nests.
//!
//! A certificate arrives as base64 text of a DER encoding: values in
//! values, each with a tag and a length before it.  Whoever decodes such an
//! encoding goes one level deeper for every value that holds values, so a
//! certificate is looked at only if it nests no deeper than certificates
//! do.

use vstd::prelude::*;
use vstd::string::*;

verus! {

/// The longest certificate text that is looked at.
pub const MAX_CERTIFICATE_LENGTH: usize = 8192;

/// The deepest nesting of a certificate that is looked at.
pub const MAX_NESTING: u32 = 32;

/// The six bits that a character of base64 text stands for.
pub open spec fn sextet(c: char) -> Option<u8> {
    if 'A' <= c && c <= 'Z' {
        Some(((c as u32) - 65) as u8)
    } else if 'a' <= c && c <= 'z' {
        Some(((c as u32) - 71) as u8)
    } else if '0' <= c && c <= '9' {
        Some(((c as u32) + 4) as u8)
    } else if c == '+' {
        Some(62u8)
    } else if c == '/' {
        Some(63u8)
    } else {
        None
    }
}

/// The bytes that four characters of base64 text stand for: three, or two
/// or one if the last one or two characters are padding.
pub open spec fn quad_bytes(a: char, b: char, c: char, d: char) -> Option<Seq<u8>> {
    match (sextet(a), sextet(b)) {
        (Some(x), Some(y)) => {
            let first = (x * 4 + y / 16) as u8;
            if c == '=' && d == '=' {
                Some(seq![first])
            } else {
                match sextet(c) {
                    None => None,
                    Some(z) => {
                        let second = ((y % 16) * 16 + z / 4) as u8;
                        if d == '=' {
                            Some(seq![first, second])
                        } else {
                            match sextet(d) {
                                None => None,
                                Some(w) => Some(seq![first, second, ((z % 4) * 64 + w) as u8]),
                            }
                        }
                    },
                }
            }
        },
        _ => None,
    }
}

/// The bytes that a base64 text stands for, four characters at a time;
/// nothing if the text is not made of such groups of four.
pub open spec fn decoded(s: Seq<char>) -> Option<Seq<u8>>
    decreases s.len(),
{
    if s.len() == 0 {
        Some(Seq::<u8>::empty())
    } else if s.len() < 4 {
        None
    } else {
        let n = s.len() as int;
        match (decoded(s.subrange(0, n - 4)), quad_bytes(s[n - 4], s[n - 3], s[n - 2], s[n - 1])) {
            (Some(head), Some(last)) => Some(head + last),
            _ => None,
        }
    }
}

/// The tag and the length that an encoding begins with.
pub struct Header {
    /// Whether the value holds values: a sequence or a set, or a value
    /// under a tag of its own that is marked as holding values.
    pub holds_values: bool,
    /// The number of bytes before the value.
    pub before: nat,
    /// The number of bytes of the value.
    pub length: nat,
}

/// The header that the encoding `b` begins with: a tag of one byte, and a
/// length of one byte or of one or two bytes after a byte that says so.
/// Nothing for any other form, and for a value that would go beyond `b`.
pub open spec fn header(b: Seq<u8>) -> Option<Header> {
    if b.len() < 2 || b[0] % 32 == 31 {
        None
    } else {
        let holds_values = if b[0] < 64 {
            b[0] % 32 == 16 || b[0] % 32 == 17
        } else {
            (b[0] / 32) % 2 == 1
        };
        let h = if b[1] < 128 {
            Some(Header { holds_values, before: 2, length: b[1] as nat })
        } else if b[1] == 129 && b.len() >= 3 {
            Some(Header { holds_values, before: 3, length: b[2] as nat })
        } else if b[1] == 130 && b.len() >= 4 {
            Some(Header { holds_values, before: 4, length: (b[2] * 256 + b[3]) as nat })
        } else {
            None
        };
        match h {
            Some(h) => if h.before + h.length <= b.len() {
                Some(h)
            } else {
                None
            },
            None => None,
        }
    }
}

/// Whether the encoding `b`, a run of values, nests no deeper than
/// `budget`: each value has a header, a value that holds values is a run
/// that nests no deeper than one less, and what follows the value does not
/// nest deeper either.
pub open spec fn shallow(b: Seq<u8>, budget: nat) -> bool
    decreases budget, b.len(),
{
    if b.len() == 0 {
        true
    } else {
        match header(b) {
            None => false,
            Some(h) => {
                let end = h.before + h.length;
                if 2 <= h.before && end <= b.len() {
                    &&& !h.holds_values || (budget > 0 && shallow(
                        b.subrange(h.before as int, end as int),
                        (budget - 1) as nat,
                    ))
                    &&& shallow(b.subrange(end as int, b.len() as int), budget)
                } else {
                    false
                }
            },
        }
    }
}

/// Whether the certificate text `s` is looked at: it is base64 text of
/// modest length, and the encoding it stands for nests no deeper than
/// certificates do.
pub open spec fn shallow_certificate(s: Seq<char>) -> bool {
    &&& s.len() <= MAX_CERTIFICATE_LENGTH
    &&& decoded(s) matches Some(bytes) && shallow(bytes, MAX_NESTING as nat)
}

/// Reads the six bits that a character stands for.
fn read_sextet(c: char) -> (r: Option<u8>)
    ensures
        r == sextet(c),
        r matches Some(v) ==> v < 64,
{
    if c >= 'A' && c <= 'Z' {
        Some(((c as u32) - 65) as u8)
    } else if c >= 'a' && c <= 'z' {
        Some(((c as u32) - 71) as u8)
    } else if c >= '0' && c <= '9' {
        Some(((c as u32) + 4) as u8)
    } else if c == '+' {
        Some(62)
    } else if c == '/' {
        Some(63)
    } else {
        None
    }
}

/// Appends the bytes that four characters stand for.  Tells whether they
/// stand for any.
fn push_quad(out: &mut Vec<u8>, a: char, b: char, c: char, d: char) -> (ok: bool)
    ensures
        ok == quad_bytes(a, b, c, d) is Some,
        ok ==> final(out)@ == old(out)@ + quad_bytes(a, b, c, d)->0,
        !ok ==> final(out)@ == old(out)@,
{
    let x = match read_sextet(a) {
        Some(x) => x,
        None => {
            return false;
        },
    };
    let y = match read_sextet(b) {
        Some(y) => y,
        None => {
            return false;
        },
    };
    let first: u8 = x * 4 + y / 16;
    if c == '=' && d == '=' {
        out.push(first);
        proof {
            assert(out@ =~= old(out)@ + seq![first]);
        }
        return true;
    }
    let z = match read_sextet(c) {
        Some(z) => z,
        None => {
            return false;
        },
    };
    let second: u8 = (y % 16) * 16 + z / 4;
    if d == '=' {
        out.push(first);
        out.push(second);
        proof {
            assert(out@ =~= old(out)@ + seq![first, second]);
        }
        return true;
    }
    let w = match read_sextet(d) {
        Some(w) => w,
        None => {
            return false;
        },
    };
    let third: u8 = (z % 4) * 64 + w;
    out.push(first);
    out.push(second);
    out.push(third);
    proof {
        assert(out@ =~= old(out)@ + seq![first, second, third]);
    }
    true
}

/// Reads the bytes that a base64 text stands for.
pub fn decode_base64(s: &str) -> (r: Option<Vec<u8>>)
    ensures
        match r {
            Some(bytes) => decoded(s@) == Some(bytes@),
            None => decoded(s@) is None,
        },
{
    let n = s.unicode_len();
    if n % 4 != 0 {
        proof {
            lemma_decoded_length(s@);
        }
        return None;
    }
    let mut out: Vec<u8> = Vec::new();
    let mut i: usize = 0;
    proof {
        assert(s@.subrange(0, 0) =~= Seq::<char>::empty());
    }
    while i < n
        invariant
            i <= n,
            n == s@.len(),
            n % 4 == 0,
            i % 4 == 0,
            decoded(s@.subrange(0, i as int)) == Some(out@),
        decreases n - i,
    {
        let a = s.get_char(i);
        let b = s.get_char(i + 1);
        let c = s.get_char(i + 2);
        let d = s.get_char(i + 3);
        let ghost next = s@.subrange(0, i + 4);
        proof {
            assert(next.subrange(0, next.len() - 4) =~= s@.subrange(0, i as int));
        }
        if !push_quad(&mut out, a, b, c, d) {
            proof {
                lemma_decoded_prefix(s@, i + 4);
            }
            return None;
        }
        i = i + 4;
    }
    proof {
        assert(s@.subrange(0, n as int) =~= s@);
    }
    Some(out)
}

/// A text that stands for bytes is made of groups of four characters.
pub proof fn lemma_decoded_length(s: Seq<char>)
    ensures
        decoded(s) is Some ==> s.len() % 4 == 0,
    decreases s.len(),
{
    if s.len() >= 4 {
        lemma_decoded_length(s.subrange(0, s.len() - 4));
    }
}

/// If a text stands for bytes, so does each beginning of it made of groups
/// of four characters.
pub proof fn lemma_decoded_prefix(s: Seq<char>, k: int)
    requires
        0 <= k <= s.len(),
        k % 4 == 0,
        s.len() % 4 == 0,
    ensures
        decoded(s) is Some ==> decoded(s.subrange(0, k)) is Some,
    decreases s.len(),
{
    if k == s.len() {
        assert(s.subrange(0, k) =~= s);
    } else if s.len() >= 4 {
        let head = s.subrange(0, s.len() - 4);
        lemma_decoded_prefix(head, k);
        assert(head.subrange(0, k) =~= s.subrange(0, k));
    }
}

/// Reads the header that the encoding from `start` to `end` begins with: whether
/// the value holds values, where it begins, and where it ends.
fn read_header(bytes: &Vec<u8>, start: usize, end: usize) -> (r: Option<(bool, usize, usize)>)
    requires
        start <= end <= bytes@.len(),
    ensures
        match r {
            Some((holds_values, from, to)) => header(bytes@.subrange(start as int, end as int))
                == Some(
                Header {
                    holds_values,
                    before: (from - start) as nat,
                    length: (to - from) as nat,
                },
            ) && start + 2 <= from <= to <= end,
            None => header(bytes@.subrange(start as int, end as int)) is None,
        },
{
    let ghost b = bytes@.subrange(start as int, end as int);
    if end - start < 2 {
        return None;
    }
    let tag = bytes[start];
    let first = bytes[start + 1];
    assert(b[0] == tag && b[1] == first);
    if tag % 32 == 31 {
        return None;
    }
    let holds_values = if tag < 64 {
        tag % 32 == 16 || tag % 32 == 17
    } else {
        (tag / 32) % 2 == 1
    };
    let (from, length): (usize, usize) = if first < 128 {
        (start + 2, first as usize)
    } else if first == 129 && end - start >= 3 {
        assert(b[2] == bytes@[start + 2]);
        (start + 3, bytes[start + 2] as usize)
    } else if first == 130 && end - start >= 4 {
        assert(b[2] == bytes@[start + 2] && b[3] == bytes@[start + 3]);
        (start + 4, (bytes[start + 2] as usize) * 256 + (bytes[start + 3] as usize))
    } else {
        return None;
    };
    if length > end - from {
        return None;
    }
    Some((holds_values, from, from + length))
}

/// Tells whether the encoding from `start` to `end` nests no deeper than `budget`.
fn shallow_within(bytes: &Vec<u8>, start: usize, end: usize, budget: u32) -> (r: bool)
    requires
        start <= end <= bytes@.len(),
    ensures
        r == shallow(bytes@.subrange(start as int, end as int), budget as nat),
    decreases budget, end - start,
{
    let mut at: usize = start;
    proof {
        assert(bytes@.subrange(start as int, end as int) =~= bytes@.subrange(
            at as int,
            end as int,
        ));
    }
    while at < end
        invariant
            start <= at <= end <= bytes@.len(),
            shallow(bytes@.subrange(start as int, end as int), budget as nat) == shallow(
                bytes@.subrange(at as int, end as int),
                budget as nat,
            ),
        decreases end - at,
    {
        let ghost b = bytes@.subrange(at as int, end as int);
        match read_header(bytes, at, end) {
            None => {
                return false;
            },
            Some((holds_values, from, to)) => {
                proof {
                    assert(b.subrange(from - at, to - at) =~= bytes@.subrange(
                        from as int,
                        to as int,
                    ));
                    assert(b.subrange(to - at, b.len() as int) =~= bytes@.subrange(
                        to as int,
                        end as int,
                    ));
                }
                if holds_values {
                    if budget == 0 {
                        return false;
                    }
                    if !shallow_within(bytes, from, to, budget - 1) {
                        return false;
                    }
                }
                at = to;
            },
        }
    }
    true
}

/// Tells whether a certificate text is looked at.
pub fn is_shallow_certificate(s: &str) -> (r: bool)
    ensures
        r == shallow_certificate(s@),
{
    if s.unicode_len() > MAX_CERTIFICATE_LENGTH {
        return false;
    }
    match decode_base64(s) {
        None => false,
        Some(bytes) => {
            proof {
                assert(bytes@.subrange(0, bytes@.len() as int) =~= bytes@);
            }
            let n = bytes.len();
            shallow_within(&bytes, 0, n, MAX_NESTING)
        },
    }
}

} // verus!
