//! Verified form-urlencoding for query strings.
//!
//! Query parameters are serialized the standard way for web forms: ASCII
//! letters, digits and `*`, `-`, `.`, `_` stand as themselves, a space
//! becomes `+`, and every other character is written as the percent-encoded
//! bytes of its UTF-8 form. The specification functions state the encoded
//! text character by character.

use vstd::prelude::*;

verus! {

/// The UTF-8 bytes of one character.
pub open spec fn spec_utf8(c: char) -> Seq<u8> {
    let n = c as u32;
    if n < 0x80 {
        seq![n as u8]
    } else if n < 0x800 {
        seq![(0xC0 + n as int / 0x40) as u8, (0x80 + n as int % 0x40) as u8]
    } else if n < 0x10000 {
        seq![
            (0xE0 + n as int / 0x1000) as u8,
            (0x80 + (n as int / 0x40) % 0x40) as u8,
            (0x80 + n as int % 0x40) as u8,
        ]
    } else {
        seq![
            (0xF0 + n as int / 0x40000) as u8,
            (0x80 + (n as int / 0x1000) % 0x40) as u8,
            (0x80 + (n as int / 0x40) % 0x40) as u8,
            (0x80 + n as int % 0x40) as u8,
        ]
    }
}

/// The UTF-8 bytes of one character.
fn utf8_bytes(c: char) -> (r: Vec<u8>)
    ensures
        r@ == spec_utf8(c),
{
    let n = c as u32;
    let mut r: Vec<u8> = Vec::new();
    if n < 0x80 {
        r.push(n as u8);
    } else if n < 0x800 {
        r.push((0xC0 + n / 0x40) as u8);
        r.push((0x80 + n % 0x40) as u8);
    } else if n < 0x10000 {
        r.push((0xE0 + n / 0x1000) as u8);
        r.push((0x80 + (n / 0x40) % 0x40) as u8);
        r.push((0x80 + n % 0x40) as u8);
    } else {
        r.push((0xF0 + n / 0x40000) as u8);
        r.push((0x80 + (n / 0x1000) % 0x40) as u8);
        r.push((0x80 + (n / 0x40) % 0x40) as u8);
        r.push((0x80 + n % 0x40) as u8);
    }
    proof {
        assert(r@ =~= spec_utf8(c));
    }
    r
}

/// The upper-case hexadecimal digit of a value below sixteen.
pub open spec fn spec_hex_upper(d: int) -> char {
    if d == 0 {
        '0'
    } else if d == 1 {
        '1'
    } else if d == 2 {
        '2'
    } else if d == 3 {
        '3'
    } else if d == 4 {
        '4'
    } else if d == 5 {
        '5'
    } else if d == 6 {
        '6'
    } else if d == 7 {
        '7'
    } else if d == 8 {
        '8'
    } else if d == 9 {
        '9'
    } else if d == 10 {
        'A'
    } else if d == 11 {
        'B'
    } else if d == 12 {
        'C'
    } else if d == 13 {
        'D'
    } else if d == 14 {
        'E'
    } else {
        'F'
    }
}

/// The upper-case hexadecimal digit of a value below sixteen.
fn hex_upper(d: u8) -> (r: char)
    requires
        d < 16,
    ensures
        r == spec_hex_upper(d as int),
{
    if d == 0 {
        '0'
    } else if d == 1 {
        '1'
    } else if d == 2 {
        '2'
    } else if d == 3 {
        '3'
    } else if d == 4 {
        '4'
    } else if d == 5 {
        '5'
    } else if d == 6 {
        '6'
    } else if d == 7 {
        '7'
    } else if d == 8 {
        '8'
    } else if d == 9 {
        '9'
    } else if d == 10 {
        'A'
    } else if d == 11 {
        'B'
    } else if d == 12 {
        'C'
    } else if d == 13 {
        'D'
    } else if d == 14 {
        'E'
    } else {
        'F'
    }
}

/// One byte in percent-encoded form.
pub open spec fn spec_pct_byte(b: u8) -> Seq<char> {
    seq!['%', spec_hex_upper(b as int / 16), spec_hex_upper(b as int % 16)]
}

/// A byte sequence in percent-encoded form.
pub open spec fn spec_pct_bytes(s: Seq<u8>) -> Seq<char>
    decreases s.len(),
{
    if s.len() == 0 {
        Seq::empty()
    } else {
        spec_pct_bytes(s.drop_last()) + spec_pct_byte(s.last())
    }
}

/// Whether a character stands as itself in a form-urlencoded string: ASCII
/// letters and digits, `*`, `-`, `.` and `_`.
pub open spec fn spec_is_form_unreserved(c: char) -> bool {
    let n = c as u32;
    (97 <= n && n <= 122) || (65 <= n && n <= 90) || (48 <= n && n <= 57) || n == 42 || n == 45
        || n == 46 || n == 95
}

/// How one character stands in a form-urlencoded string.
pub open spec fn spec_urlencoded_char(c: char) -> Seq<char> {
    if spec_is_form_unreserved(c) {
        seq![c]
    } else if c == ' ' {
        seq!['+']
    } else {
        spec_pct_bytes(spec_utf8(c))
    }
}

/// A whole character sequence in form-urlencoded form.
pub open spec fn spec_urlencoded(s: Seq<char>) -> Seq<char>
    decreases s.len(),
{
    if s.len() == 0 {
        Seq::empty()
    } else {
        spec_urlencoded(s.drop_last()) + spec_urlencoded_char(s.last())
    }
}

/// Append one character in its form-urlencoded form.
fn push_urlencoded_char(out: &mut String, c: char)
    ensures
        final(out)@ == old(out)@ + spec_urlencoded_char(c),
{
    let ghost base = out@;
    let n = c as u32;
    if (97 <= n && n <= 122) || (65 <= n && n <= 90) || (48 <= n && n <= 57) || n == 42 || n == 45
        || n == 46 || n == 95 {
        out.push(c);
        proof {
            assert(out@ =~= base + spec_urlencoded_char(c));
        }
    } else if c == ' ' {
        out.push('+');
        proof {
            assert(out@ =~= base + spec_urlencoded_char(c));
        }
    } else {
        let bytes = utf8_bytes(c);
        let len = bytes.len();
        let mut i: usize = 0;
        while i < len
            invariant
                len == bytes@.len(),
                i <= len,
                bytes@ == spec_utf8(c),
                !spec_is_form_unreserved(c),
                c != ' ',
                out@ == base + spec_pct_bytes(bytes@.subrange(0, i as int)),
            decreases len - i,
        {
            let b = bytes[i];
            out.push('%');
            out.push(hex_upper(b / 16));
            out.push(hex_upper(b % 16));
            proof {
                assert(bytes@.subrange(0, i + 1 as int).drop_last() =~= bytes@.subrange(
                    0,
                    i as int,
                ));
                assert(bytes@.subrange(0, i + 1 as int).last() == b);
                assert(out@ =~= base + spec_pct_bytes(bytes@.subrange(0, i + 1 as int)));
            }
            i = i + 1;
        }
        proof {
            assert(bytes@.subrange(0, bytes@.len() as int) =~= bytes@);
            assert(out@ =~= base + spec_urlencoded_char(c));
        }
    }
}

/// Append a whole text in its form-urlencoded form.
pub fn push_urlencoded(out: &mut String, v: &str)
    ensures
        final(out)@ == old(out)@ + spec_urlencoded(v@),
{
    let ghost base = out@;
    let n = v.unicode_len();
    let mut i: usize = 0;
    while i < n
        invariant
            n == v@.len(),
            i <= n,
            out@ == base + spec_urlencoded(v@.subrange(0, i as int)),
        decreases n - i,
    {
        let c = v.get_char(i);
        push_urlencoded_char(out, c);
        proof {
            assert(v@.subrange(0, i + 1 as int).drop_last() =~= v@.subrange(0, i as int));
            assert(v@.subrange(0, i + 1 as int).last() == c);
        }
        i = i + 1;
    }
    proof {
        assert(v@.subrange(0, v@.len() as int) =~= v@);
    }
}

/// One query parameter: the encoded key and encoded value joined by `=`.
pub open spec fn spec_query_pair(k: Seq<char>, v: Seq<char>) -> Seq<char> {
    spec_urlencoded(k) + seq!['='] + spec_urlencoded(v)
}

/// A query string: the parameters in order, joined by `&`. Each given pair
/// contributes exactly one parameter.
pub open spec fn spec_query(pairs: Seq<(Seq<char>, Seq<char>)>) -> Seq<char>
    decreases pairs.len(),
{
    if pairs.len() == 0 {
        Seq::empty()
    } else if pairs.len() == 1 {
        spec_query_pair(pairs[0].0, pairs[0].1)
    } else {
        spec_query(pairs.drop_last()) + seq!['&'] + spec_query_pair(
            pairs.last().0,
            pairs.last().1,
        )
    }
}

/// Append a whole query string for the given parameters, in order.
pub fn push_query(out: &mut String, pairs: &Vec<(String, String)>)
    ensures
        final(out)@ == old(out)@ + spec_query(crate::json::spec_pairs(pairs@)),
{
    let ghost base = out@;
    let n = pairs.len();
    let mut i: usize = 0;
    while i < n
        invariant
            n == pairs@.len(),
            i <= n,
            out@ == base + spec_query(crate::json::spec_pairs(pairs@).subrange(0, i as int)),
        decreases n - i,
    {
        if i > 0 {
            out.push('&');
        }
        push_urlencoded(out, pairs[i].0.as_str());
        out.push('=');
        push_urlencoded(out, pairs[i].1.as_str());
        proof {
            let ps = crate::json::spec_pairs(pairs@);
            assert(ps.subrange(0, i + 1 as int).drop_last() =~= ps.subrange(0, i as int));
            assert(ps.subrange(0, i + 1 as int).last() == ps[i as int]);
            assert(out@ =~= base + spec_query(ps.subrange(0, i + 1 as int)));
        }
        i = i + 1;
    }
    proof {
        let ps = crate::json::spec_pairs(pairs@);
        assert(ps.subrange(0, ps.len() as int) =~= ps);
    }
}

} // verus!
