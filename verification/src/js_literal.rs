//! Encoding of arbitrary text as a JavaScript double-quoted string literal.
//!
//! The loader script embeds the route path and the chunk paths as language
//! literals, never by raw concatenation, so that text under a user's control
//! cannot escape the literal it stands in. The encoding escapes the quote,
//! the backslash, every control character and the two Unicode line
//! separators; everything else passes through verbatim. A decoding
//! specification and a proved round trip pin the encoding down: reading the
//! emitted literal back gives exactly the original text.

use vstd::prelude::*;
use vstd::utf8::char_u32_cast;

verus! {

/// The hexadecimal digit for a value below sixteen.
pub open spec fn hex_digit(n: u32) -> char {
    if n == 0 {
        '0'
    } else if n == 1 {
        '1'
    } else if n == 2 {
        '2'
    } else if n == 3 {
        '3'
    } else if n == 4 {
        '4'
    } else if n == 5 {
        '5'
    } else if n == 6 {
        '6'
    } else if n == 7 {
        '7'
    } else if n == 8 {
        '8'
    } else if n == 9 {
        '9'
    } else if n == 10 {
        'a'
    } else if n == 11 {
        'b'
    } else if n == 12 {
        'c'
    } else if n == 13 {
        'd'
    } else if n == 14 {
        'e'
    } else {
        'f'
    }
}

/// Whether `c` is a lower-case hexadecimal digit.
pub open spec fn is_hex_digit(c: char) -> bool {
    '0' <= c <= '9' || 'a' <= c <= 'f'
}

/// The value of a lower-case hexadecimal digit.
pub open spec fn hex_val(c: char) -> u32 {
    if '0' <= c <= '9' {
        (c as u32 - '0' as u32) as u32
    } else {
        (c as u32 - 'a' as u32 + 10) as u32
    }
}

/// The four hexadecimal digits of a value below `0x10000`, highest first.
pub open spec fn hex4(v: u32) -> Seq<char> {
    seq![
        hex_digit(v as u32 / 16 / 16 / 16 % 16),
        hex_digit(v as u32 / 16 / 16 % 16),
        hex_digit(v as u32 / 16 % 16),
        hex_digit(v as u32 % 16),
    ]
}

/// The value written by four hexadecimal digits, highest first.
pub open spec fn hex4_val(s: Seq<char>) -> u32 {
    (((hex_val(s[0]) * 16 + hex_val(s[1])) * 16 + hex_val(s[2])) * 16 + hex_val(s[3])) as u32
}

/// Whether `c` must be written as a `\u` escape: control characters, and
/// the line and paragraph separators, which older parsers treat as literal
/// terminators.
pub open spec fn needs_unicode_escape(c: char) -> bool {
    (c as u32) < 0x20 || c as u32 == 0x2028 || c as u32 == 0x2029
}

/// How one character appears inside the literal.
pub open spec fn escape_char(c: char) -> Seq<char> {
    if c == '"' {
        seq!['\\', '"']
    } else if c == '\\' {
        seq!['\\', '\\']
    } else if needs_unicode_escape(c) {
        seq!['\\', 'u'] + hex4(c as u32)
    } else {
        seq![c]
    }
}

/// The body of the literal: each character of `s` escaped in order.
pub open spec fn escape_string(s: Seq<char>) -> Seq<char>
    decreases s.len(),
{
    if s.len() == 0 {
        Seq::empty()
    } else {
        escape_char(s[0]) + escape_string(s.drop_first())
    }
}

/// The whole double-quoted literal for `s`.
pub open spec fn js_string_literal(s: Seq<char>) -> Seq<char> {
    seq!['"'] + escape_string(s) + seq!['"']
}

/// Prepends `c` to a decoded tail, if the tail decoded at all.
pub open spec fn decoded_cons(c: char, rest: Option<Seq<char>>) -> Option<Seq<char>> {
    match rest {
        Some(r) => Some(seq![c] + r),
        None => None,
    }
}

/// Decodes the body of a double-quoted literal. A lone backslash, a
/// malformed escape or an unescaped quote makes the body invalid.
pub open spec fn unescape_body(s: Seq<char>) -> Option<Seq<char>>
    decreases s.len(),
{
    if s.len() == 0 {
        Some(Seq::empty())
    } else if s[0] == '\\' {
        if s.len() >= 2 && s[1] == '"' {
            decoded_cons('"', unescape_body(s.skip(2)))
        } else if s.len() >= 2 && s[1] == '\\' {
            decoded_cons('\\', unescape_body(s.skip(2)))
        } else if s.len() >= 6 && s[1] == 'u' && is_hex_digit(s[2]) && is_hex_digit(s[3])
            && is_hex_digit(s[4]) && is_hex_digit(s[5]) {
            decoded_cons(hex4_val(s.subrange(2, 6)) as char, unescape_body(s.skip(6)))
        } else {
            None
        }
    } else if s[0] == '"' {
        None
    } else {
        decoded_cons(s[0], unescape_body(s.skip(1)))
    }
}

/// Decodes a whole double-quoted literal back to the text it writes.
pub open spec fn decode_js_string_literal(lit: Seq<char>) -> Option<Seq<char>> {
    if lit.len() >= 2 && lit[0] == '"' && lit[lit.len() - 1] == '"' {
        unescape_body(lit.subrange(1, lit.len() - 1))
    } else {
        None
    }
}

/// The digits of a value below `0x10000` are hexadecimal digits and read
/// back as that value.
pub proof fn lemma_hex4_digits(v: u32)
    requires
        v < 0x10000,
    ensures
        hex4(v).len() == 4,
        is_hex_digit(hex4(v)[0]),
        is_hex_digit(hex4(v)[1]),
        is_hex_digit(hex4(v)[2]),
        is_hex_digit(hex4(v)[3]),
        hex4_val(hex4(v)) == v,
{
    let q1 = v / 16;
    let q2 = q1 / 16;
    let q3 = q2 / 16;
    assert(v == q1 * 16 + v % 16);
    assert(q1 == q2 * 16 + q1 % 16);
    assert(q2 == q3 * 16 + q2 % 16);
    assert(q3 < 16);
    lemma_hex_digit_val(q3 % 16);
    lemma_hex_digit_val(q2 % 16);
    lemma_hex_digit_val(q1 % 16);
    lemma_hex_digit_val(v % 16);
}

/// A digit below sixteen round-trips through its hexadecimal character.
pub proof fn lemma_hex_digit_val(n: u32)
    requires
        n < 16,
    ensures
        is_hex_digit(hex_digit(n)),
        hex_val(hex_digit(n)) == n,
{
}

/// Escaping distributes over concatenation.
pub proof fn lemma_escape_string_append(a: Seq<char>, b: Seq<char>)
    ensures
        escape_string(a + b) == escape_string(a) + escape_string(b),
    decreases a.len(),
{
    if a.len() == 0 {
        assert(a + b =~= b);
        assert(escape_string(a) + escape_string(b) =~= escape_string(b));
    } else {
        assert((a + b).drop_first() =~= a.drop_first() + b);
        lemma_escape_string_append(a.drop_first(), b);
        assert(escape_string(a + b) == escape_char(a[0]) + (escape_string(a.drop_first())
            + escape_string(b)));
        assert(escape_char(a[0]) + (escape_string(a.drop_first()) + escape_string(b)) =~= (
        escape_char(a[0]) + escape_string(a.drop_first())) + escape_string(b));
    }
}

/// Law: decoding the body written for `s` gives back exactly `s`.
pub proof fn lemma_unescape_escape(s: Seq<char>)
    ensures
        unescape_body(escape_string(s)) == Some(s),
    decreases s.len(),
{
    if s.len() == 0 {
    } else {
        let c = s[0];
        let rest = s.drop_first();
        lemma_unescape_escape(rest);
        let tail = escape_string(rest);
        let e = escape_string(s);
        assert(e == escape_char(c) + tail);
        assert(seq![c] + rest =~= s);
        if c == '"' {
            assert(e[0] == '\\' && e[1] == '"');
            assert(e.skip(2) =~= tail);
        } else if c == '\\' {
            assert(e[0] == '\\' && e[1] == '\\');
            assert(e.skip(2) =~= tail);
        } else if needs_unicode_escape(c) {
            let v = c as u32;
            assert(v < 0x10000);
            lemma_hex4_digits(v);
            let h = hex4(v);
            assert(escape_char(c) == seq!['\\', 'u'] + h);
            assert(e.len() == 6 + tail.len());
            assert(e[0] == '\\' && e[1] == 'u');
            assert(e[2] == h[0] && e[3] == h[1] && e[4] == h[2] && e[5] == h[3]);
            assert(e.subrange(2, 6) =~= h);
            assert(e.skip(6) =~= tail);
            assert(hex4_val(e.subrange(2, 6)) == v);
            char_u32_cast(c, v);
            assert(hex4_val(e.subrange(2, 6)) as char == c);
        } else {
            assert(e[0] == c);
            assert(c != '\\' && c != '"');
            assert(e.skip(1) =~= tail);
        }
    }
}

/// Law: a route path holding quotes, backslashes, control or any other
/// Unicode characters is encoded so that decoding the emitted literal
/// reproduces the original text exactly.
pub proof fn lemma_js_literal_round_trip(s: Seq<char>)
    ensures
        decode_js_string_literal(js_string_literal(s)) == Some(s),
{
    let lit = js_string_literal(s);
    assert(lit[0] == '"');
    assert(lit[lit.len() - 1] == '"');
    assert(lit.subrange(1, lit.len() - 1) =~= escape_string(s));
    lemma_unescape_escape(s);
}

/// The hexadecimal digit for a value below sixteen.
pub fn hex_digit_exec(n: u32) -> (c: char)
    requires
        n < 16,
    ensures
        c == hex_digit(n),
{
    if n == 0 {
        '0'
    } else if n == 1 {
        '1'
    } else if n == 2 {
        '2'
    } else if n == 3 {
        '3'
    } else if n == 4 {
        '4'
    } else if n == 5 {
        '5'
    } else if n == 6 {
        '6'
    } else if n == 7 {
        '7'
    } else if n == 8 {
        '8'
    } else if n == 9 {
        '9'
    } else if n == 10 {
        'a'
    } else if n == 11 {
        'b'
    } else if n == 12 {
        'c'
    } else if n == 13 {
        'd'
    } else if n == 14 {
        'e'
    } else {
        'f'
    }
}

/// Appends the escape of one character to `out`.
fn push_escaped(out: &mut Vec<char>, c: char)
    ensures
        final(out)@ == old(out)@ + escape_char(c),
{
    if c == '"' {
        out.push('\\');
        out.push('"');
        proof {
            assert(old(out)@ + escape_char(c) =~= old(out)@.push('\\').push('"'));
        }
    } else if c == '\\' {
        out.push('\\');
        out.push('\\');
        proof {
            assert(old(out)@ + escape_char(c) =~= old(out)@.push('\\').push('\\'));
        }
    } else if (c as u32) < 0x20 || (c as u32) == 0x2028 || (c as u32) == 0x2029 {
        let v = c as u32;
        out.push('\\');
        out.push('u');
        out.push(hex_digit_exec(v / 16 / 16 / 16 % 16));
        out.push(hex_digit_exec(v / 16 / 16 % 16));
        out.push(hex_digit_exec(v / 16 % 16));
        out.push(hex_digit_exec(v % 16));
        proof {
            assert(old(out)@ + escape_char(c) =~= old(out)@.push('\\').push('u').push(
                hex_digit(v / 16 / 16 / 16 % 16),
            ).push(hex_digit(v / 16 / 16 % 16)).push(hex_digit(v / 16 % 16)).push(
                hex_digit(v % 16),
            ));
        }
    } else {
        out.push(c);
        proof {
            assert(old(out)@ + escape_char(c) =~= old(out)@.push(c));
        }
    }
}

/// Renders `s` as a double-quoted JavaScript string literal.
pub fn encode_js_string(s: &Vec<char>) -> (r: Vec<char>)
    ensures
        r@ == js_string_literal(s@),
{
    let mut out: Vec<char> = Vec::new();
    out.push('"');
    let mut i: usize = 0;
    while i < s.len()
        invariant
            i <= s@.len(),
            out@ == seq!['"'] + escape_string(s@.take(i as int)),
        decreases s@.len() - i,
    {
        push_escaped(&mut out, s[i]);
        proof {
            let cs = seq![s@[i as int]];
            assert(s@.take(i + 1 as int) =~= s@.take(i as int) + cs);
            lemma_escape_string_append(s@.take(i as int), cs);
            assert(cs.drop_first() =~= Seq::<char>::empty());
            assert(escape_string(cs) == escape_char(s@[i as int]) + escape_string(
                Seq::<char>::empty(),
            ));
            assert(escape_char(s@[i as int]) + escape_string(Seq::<char>::empty())
                =~= escape_char(s@[i as int]));
        }
        i += 1;
    }
    out.push('"');
    proof {
        assert(s@.take(s@.len() as int) =~= s@);
        assert((seq!['"'] + escape_string(s@)).push('"') =~= js_string_literal(s@));
    }
    out
}

} // verus!
