//! Verified JSON emission for request bodies.
//!
//! Every request body the client sends is framed here: string values are
//! escaped exactly as the wire format demands, and object members are joined
//! in the order given. The specification functions state the emitted text
//! character by character, so each operation's contract can pin its body down
//! completely.

use vstd::prelude::*;
use vstd::string::StringExecFns;

verus! {

/// Relies on `String::push`: appends one character to the end of the string.
pub assume_specification[ String::push ](s: &mut String, ch: char)
    ensures
        final(s)@ == old(s)@.push(ch),
;

/// The lower-case hexadecimal digit of a value below sixteen.
pub open spec fn spec_hex_lower(d: int) -> char {
    if d == 0 {
        '0'
    } else if d == 1 {
        '1'
    } else if d == 2 {
        '2'
    } else if d == 3 {
        '3'
    } else if d == 4 {
        '4'
    } else if d == 5 {
        '5'
    } else if d == 6 {
        '6'
    } else if d == 7 {
        '7'
    } else if d == 8 {
        '8'
    } else if d == 9 {
        '9'
    } else if d == 10 {
        'a'
    } else if d == 11 {
        'b'
    } else if d == 12 {
        'c'
    } else if d == 13 {
        'd'
    } else if d == 14 {
        'e'
    } else {
        'f'
    }
}

/// The lower-case hexadecimal digit of a value below sixteen.
fn hex_lower(d: u32) -> (r: char)
    requires
        d < 16,
    ensures
        r == spec_hex_lower(d as int),
{
    if d == 0 {
        '0'
    } else if d == 1 {
        '1'
    } else if d == 2 {
        '2'
    } else if d == 3 {
        '3'
    } else if d == 4 {
        '4'
    } else if d == 5 {
        '5'
    } else if d == 6 {
        '6'
    } else if d == 7 {
        '7'
    } else if d == 8 {
        '8'
    } else if d == 9 {
        '9'
    } else if d == 10 {
        'a'
    } else if d == 11 {
        'b'
    } else if d == 12 {
        'c'
    } else if d == 13 {
        'd'
    } else if d == 14 {
        'e'
    } else {
        'f'
    }
}

/// How one character stands inside a JSON string literal: quote and backslash
/// take an escape, the named control characters take their short escapes, any
/// other control character takes the `\u00xx` form, and everything else
/// stands as itself.
pub open spec fn spec_json_escaped_char(c: char) -> Seq<char> {
    if c == '"' {
        seq!['\\', '"']
    } else if c == '\\' {
        seq!['\\', '\\']
    } else if c == '\u{8}' {
        seq!['\\', 'b']
    } else if c == '\t' {
        seq!['\\', 't']
    } else if c == '\n' {
        seq!['\\', 'n']
    } else if c == '\u{c}' {
        seq!['\\', 'f']
    } else if c == '\r' {
        seq!['\\', 'r']
    } else if (c as u32) < 0x20 {
        seq![
            '\\',
            'u',
            '0',
            '0',
            spec_hex_lower((c as u32) as int / 16),
            spec_hex_lower((c as u32) as int % 16),
        ]
    } else {
        seq![c]
    }
}

/// A whole character sequence escaped for a JSON string literal.
pub open spec fn spec_json_escaped(s: Seq<char>) -> Seq<char>
    decreases s.len(),
{
    if s.len() == 0 {
        Seq::empty()
    } else {
        spec_json_escaped(s.drop_last()) + spec_json_escaped_char(s.last())
    }
}

/// A JSON string literal: the escaped characters between double quotes.
pub open spec fn spec_json_string(s: Seq<char>) -> Seq<char> {
    seq!['"'] + spec_json_escaped(s) + seq!['"']
}

/// Append one character in its escaped form.
fn push_json_escaped_char(out: &mut String, c: char)
    ensures
        final(out)@ == old(out)@ + spec_json_escaped_char(c),
{
    if c == '"' {
        out.push('\\');
        out.push('"');
    } else if c == '\\' {
        out.push('\\');
        out.push('\\');
    } else if c == '\u{8}' {
        out.push('\\');
        out.push('b');
    } else if c == '\t' {
        out.push('\\');
        out.push('t');
    } else if c == '\n' {
        out.push('\\');
        out.push('n');
    } else if c == '\u{c}' {
        out.push('\\');
        out.push('f');
    } else if c == '\r' {
        out.push('\\');
        out.push('r');
    } else if (c as u32) < 0x20 {
        let n = c as u32;
        out.push('\\');
        out.push('u');
        out.push('0');
        out.push('0');
        out.push(hex_lower(n / 16));
        out.push(hex_lower(n % 16));
    } else {
        out.push(c);
    }
    proof {
        assert(out@ =~= old(out)@ + spec_json_escaped_char(c));
    }
}

/// Append a JSON string literal holding the given text.
pub fn push_json_string(out: &mut String, v: &str)
    ensures
        final(out)@ == old(out)@ + spec_json_string(v@),
{
    let ghost base = out@;
    out.push('"');
    let n = v.unicode_len();
    let mut i: usize = 0;
    while i < n
        invariant
            n == v@.len(),
            i <= n,
            out@ == base + seq!['"'] + spec_json_escaped(v@.subrange(0, i as int)),
        decreases n - i,
    {
        let c = v.get_char(i);
        push_json_escaped_char(out, c);
        proof {
            assert(v@.subrange(0, i + 1 as int).drop_last() =~= v@.subrange(0, i as int));
            assert(v@.subrange(0, i + 1 as int).last() == c);
        }
        i = i + 1;
    }
    out.push('"');
    proof {
        assert(v@.subrange(0, v@.len() as int) =~= v@);
        assert(out@ =~= base + spec_json_string(v@));
    }
}

/// Append one object member: key and value as JSON string literals, joined
/// by a colon.
pub fn push_json_member(out: &mut String, k: &str, v: &str)
    ensures
        final(out)@ == old(out)@ + spec_json_member(k@, v@),
{
    push_json_string(out, k);
    out.push(':');
    push_json_string(out, v);
    proof {
        assert(out@ =~= old(out)@ + spec_json_member(k@, v@));
    }
}

/// The view of a vector of string pairs: each pair as its character
/// sequences, in order.
pub open spec fn spec_pairs(entries: Seq<(String, String)>) -> Seq<(Seq<char>, Seq<char>)> {
    entries.map_values(|p: (String, String)| (p.0@, p.1@))
}

/// One object member: the key and the value as JSON string literals, joined
/// by a colon.
pub open spec fn spec_json_member(k: Seq<char>, v: Seq<char>) -> Seq<char> {
    spec_json_string(k) + seq![':'] + spec_json_string(v)
}

/// The members of an object of string fields, in order, joined by commas.
pub open spec fn spec_json_members(entries: Seq<(Seq<char>, Seq<char>)>) -> Seq<char>
    decreases entries.len(),
{
    if entries.len() == 0 {
        Seq::empty()
    } else if entries.len() == 1 {
        spec_json_member(entries[0].0, entries[0].1)
    } else {
        spec_json_members(entries.drop_last()) + seq![','] + spec_json_member(
            entries.last().0,
            entries.last().1,
        )
    }
}

/// A JSON object of string fields: the members between braces.
pub open spec fn spec_json_string_object(entries: Seq<(Seq<char>, Seq<char>)>) -> Seq<char> {
    seq!['{'] + spec_json_members(entries) + seq!['}']
}

/// Append a JSON object whose members are the given string pairs, in order.
pub fn push_json_string_object(out: &mut String, entries: &Vec<(String, String)>)
    ensures
        final(out)@ == old(out)@ + spec_json_string_object(spec_pairs(entries@)),
{
    let ghost base = out@;
    out.push('{');
    let n = entries.len();
    let mut i: usize = 0;
    while i < n
        invariant
            n == entries@.len(),
            i <= n,
            out@ == base + seq!['{'] + spec_json_members(spec_pairs(entries@).subrange(0, i as int)),
        decreases n - i,
    {
        if i > 0 {
            out.push(',');
        }
        push_json_string(out, entries[i].0.as_str());
        out.push(':');
        push_json_string(out, entries[i].1.as_str());
        proof {
            let pairs = spec_pairs(entries@);
            assert(pairs.subrange(0, i + 1 as int).drop_last() =~= pairs.subrange(0, i as int));
            assert(pairs.subrange(0, i + 1 as int).last() == pairs[i as int]);
            assert(out@ =~= base + seq!['{'] + spec_json_members(pairs.subrange(0, i + 1 as int)));
        }
        i = i + 1;
    }
    out.push('}');
    proof {
        assert(spec_pairs(entries@).subrange(0, spec_pairs(entries@).len() as int) =~= spec_pairs(
            entries@,
        ));
        assert(out@ =~= base + spec_json_string_object(spec_pairs(entries@)));
    }
}

} // verus!
