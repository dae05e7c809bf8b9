//! JSON string escaping: the text placed between the quotes of a JSON
//! string, and the decoding that gives the original characters back.

use vstd::prelude::*;

verus! {

/// A control character (U+0000 to U+001F), which JSON strings may not hold
/// unescaped.
pub open spec fn is_control(c: char) -> bool {
    (c as u32) < 0x20
}

/// A character that must be escaped inside a JSON string.
pub open spec fn needs_escape(c: char) -> bool {
    c == '"' || c == '\\' || is_control(c)
}

/// The lowercase hexadecimal digit for `d` (below sixteen).
pub open spec fn hex_char(d: nat) -> char {
    if d == 0 {
        '0'
    } else if d == 1 {
        '1'
    } else if d == 2 {
        '2'
    } else if d == 3 {
        '3'
    } else if d == 4 {
        '4'
    } else if d == 5 {
        '5'
    } else if d == 6 {
        '6'
    } else if d == 7 {
        '7'
    } else if d == 8 {
        '8'
    } else if d == 9 {
        '9'
    } else if d == 10 {
        'a'
    } else if d == 11 {
        'b'
    } else if d == 12 {
        'c'
    } else if d == 13 {
        'd'
    } else if d == 14 {
        'e'
    } else {
        'f'
    }
}

/// The value of the hexadecimal digit `c` (either case); 0 for any other
/// character.
pub open spec fn hex_value(c: char) -> nat {
    if '0' <= c && c <= '9' {
        ((c as u32) - ('0' as u32)) as nat
    } else if 'a' <= c && c <= 'f' {
        ((c as u32) - ('a' as u32) + 10) as nat
    } else if 'A' <= c && c <= 'F' {
        ((c as u32) - ('A' as u32) + 10) as nat
    } else {
        0
    }
}

/// `c` is a hexadecimal digit.
pub open spec fn is_hex(c: char) -> bool {
    ('0' <= c && c <= '9') || ('a' <= c && c <= 'f') || ('A' <= c && c <= 'F')
}

/// How the character `c` is written inside a JSON string: `\"`, `\\`,
/// `\u00XX` for a control character, and itself otherwise.
pub open spec fn escape_char(c: char) -> Seq<char> {
    if c == '"' {
        seq!['\\', '"']
    } else if c == '\\' {
        seq!['\\', '\\']
    } else if is_control(c) {
        seq!['\\', 'u', '0', '0', hex_char((c as u32 / 16) as nat), hex_char((c as u32 % 16) as nat)]
    } else {
        seq![c]
    }
}

/// The characters `s` written as the inside of a JSON string.
pub open spec fn json_escape(s: Seq<char>) -> Seq<char>
    decreases s.len(),
{
    if s.len() == 0 {
        Seq::empty()
    } else {
        escape_char(s[0]) + json_escape(s.drop_first())
    }
}

/// `t` is well-formed inside a JSON string: no raw quote, backslash or
/// control character, and every backslash starts `\"`, `\\` or `\uXXXX`.
pub open spec fn json_string_body(t: Seq<char>) -> bool
    decreases t.len(),
{
    if t.len() == 0 {
        true
    } else if t[0] == '\\' {
        if t.len() >= 2 && (t[1] == '"' || t[1] == '\\') {
            json_string_body(t.skip(2))
        } else if t.len() >= 6 && t[1] == 'u' && is_hex(t[2]) && is_hex(t[3]) && is_hex(t[4])
            && is_hex(t[5]) {
            json_string_body(t.skip(6))
        } else {
            false
        }
    } else {
        !needs_escape(t[0]) && json_string_body(t.drop_first())
    }
}

/// The characters that the inside `t` of a JSON string stands for.
pub open spec fn json_unescape(t: Seq<char>) -> Seq<char>
    decreases t.len(),
{
    if t.len() == 0 {
        Seq::empty()
    } else if t[0] == '\\' && t.len() >= 2 && (t[1] == '"' || t[1] == '\\') {
        seq![t[1]] + json_unescape(t.skip(2))
    } else if t[0] == '\\' && t.len() >= 6 && t[1] == 'u' {
        seq![
            ((4096 * hex_value(t[2]) + 256 * hex_value(t[3]) + 16 * hex_value(t[4]) + hex_value(
                t[5],
            )) as u32) as char,
        ] + json_unescape(t.skip(6))
    } else {
        seq![t[0]] + json_unescape(t.drop_first())
    }
}

/// Escaping distributes over concatenation.
pub proof fn lemma_escape_concat(a: Seq<char>, b: Seq<char>)
    ensures
        json_escape(a + b) == json_escape(a) + json_escape(b),
    decreases a.len(),
{
    if a.len() == 0 {
        assert(a + b =~= b);
        assert(json_escape(a) =~= Seq::<char>::empty());
        assert(json_escape(a + b) =~= json_escape(a) + json_escape(b));
    } else {
        assert((a + b).drop_first() =~= a.drop_first() + b);
        lemma_escape_concat(a.drop_first(), b);
        assert(json_escape(a + b) =~= json_escape(a) + json_escape(b));
    }
}

/// Characters that need no escape are written as they are.
pub proof fn lemma_escape_plain(s: Seq<char>)
    requires
        forall|i: int| 0 <= i < s.len() ==> !needs_escape(#[trigger] s[i]),
    ensures
        json_escape(s) == s,
    decreases s.len(),
{
    if s.len() > 0 {
        lemma_escape_plain(s.drop_first());
        assert(json_escape(s) =~= s);
    }
}

/// The hexadecimal digits read back as the values they were written for.
proof fn lemma_hex_round_trip(d: nat)
    requires
        d < 16,
    ensures
        hex_value(hex_char(d)) == d,
        is_hex(hex_char(d)),
{
}

/// Escaping one character gives a well-formed piece that decodes back to
/// that character, whatever follows it.
proof fn lemma_escape_char_decodes(c: char, rest: Seq<char>)
    ensures
        json_unescape(escape_char(c) + rest) == seq![c] + json_unescape(rest),
        json_string_body(rest) ==> json_string_body(escape_char(c) + rest),
{
    let t = escape_char(c) + rest;
    if c == '"' || c == '\\' {
        assert(t.skip(2) =~= rest);
    } else if is_control(c) {
        let n = c as u32;
        lemma_hex_round_trip((n / 16) as nat);
        lemma_hex_round_trip((n % 16) as nat);
        assert(t.skip(6) =~= rest);
        assert(hex_value('0') == 0);
        let v = 4096 * hex_value(t[2]) + 256 * hex_value(t[3]) + 16 * hex_value(t[4]) + hex_value(
            t[5],
        );
        assert(v == n);
        vstd::utf8::char_u32_cast(c, n);
        assert((v as u32) as char == c);
    } else {
        assert(t.drop_first() =~= rest);
    }
}

/// Decoding the escaped text gives the original characters back, and the
/// escaped text is well-formed inside a JSON string.
pub proof fn lemma_escape_round_trip(s: Seq<char>)
    ensures
        json_unescape(json_escape(s)) == s,
        json_string_body(json_escape(s)),
    decreases s.len(),
{
    if s.len() > 0 {
        lemma_escape_round_trip(s.drop_first());
        lemma_escape_char_decodes(s[0], json_escape(s.drop_first()));
        assert(seq![s[0]] + s.drop_first() =~= s);
    }
}

/// The text of the hexadecimal digit `d`.
fn hex_digit_str(d: u32) -> (r: &'static str)
    requires
        d < 16,
    ensures
        r@ == seq![hex_char(d as nat)],
{
    proof {
        reveal_strlit("0");
        reveal_strlit("1");
        reveal_strlit("2");
        reveal_strlit("3");
        reveal_strlit("4");
        reveal_strlit("5");
        reveal_strlit("6");
        reveal_strlit("7");
        reveal_strlit("8");
        reveal_strlit("9");
        reveal_strlit("a");
        reveal_strlit("b");
        reveal_strlit("c");
        reveal_strlit("d");
        reveal_strlit("e");
        reveal_strlit("f");
    }
    let r = match d {
        0 => "0",
        1 => "1",
        2 => "2",
        3 => "3",
        4 => "4",
        5 => "5",
        6 => "6",
        7 => "7",
        8 => "8",
        9 => "9",
        10 => "a",
        11 => "b",
        12 => "c",
        13 => "d",
        14 => "e",
        _ => "f",
    };
    assert(r@ =~= seq![hex_char(d as nat)]);
    r
}

/// Whether `c` must be escaped inside a JSON string.
fn char_needs_escape(c: char) -> (r: bool)
    ensures
        r == needs_escape(c),
{
    c == '"' || c == '\\' || (c as u32) < 0x20
}

/// Appends the escape of `c` to `out`.
fn append_escaped_char(out: &mut String, c: char)
    requires
        needs_escape(c),
    ensures
        final(out)@ == old(out)@ + escape_char(c),
{
    if c == '"' {
        out.append("\\\"");
        proof {
            reveal_strlit("\\\"");
            assert("\\\""@ =~= escape_char(c));
        }
    } else if c == '\\' {
        out.append("\\\\");
        proof {
            reveal_strlit("\\\\");
            assert("\\\\"@ =~= escape_char(c));
        }
    } else {
        let n = c as u32;
        let ghost before = out@;
        out.append("\\u00");
        out.append(hex_digit_str(n / 16));
        out.append(hex_digit_str(n % 16));
        proof {
            reveal_strlit("\\u00");
            assert(out@ =~= before + escape_char(c));
        }
    }
}

/// Appends the characters of `s`, escaped for the inside of a JSON string,
/// to `out`.
pub fn append_json_escaped(out: &mut String, s: &str)
    ensures
        final(out)@ == old(out)@ + json_escape(s@),
{
    let ghost init = out@;
    let cs = crate::text::chars_of(s);
    let mut start: usize = 0;
    let mut i: usize = 0;
    proof {
        assert(s@.subrange(0, 0) =~= Seq::<char>::empty());
        assert(json_escape(Seq::<char>::empty()) =~= Seq::<char>::empty());
        assert(out@ =~= init + json_escape(s@.subrange(0, 0)));
    }
    while i < cs.len()
        invariant
            cs@ == s@,
            start <= i <= cs.len(),
            out@ == init + json_escape(s@.subrange(0, start as int)),
            forall|k: int| start <= k < i ==> !needs_escape(#[trigger] s@[k]),
        decreases cs.len() - i,
    {
        let c = cs[i];
        if char_needs_escape(c) {
            let plain = s.substring_char(start, i);
            out.append(plain);
            append_escaped_char(out, c);
            proof {
                let a = s@.subrange(0, start as int);
                let m = s@.subrange(start as int, i as int);
                assert(forall|k: int| 0 <= k < m.len() ==> !needs_escape(#[trigger] m[k])) by {
                    assert forall|k: int| 0 <= k < m.len() implies !needs_escape(#[trigger] m[k]) by {
                        assert(m[k] == s@[start + k]);
                    }
                }
                lemma_escape_plain(m);
                assert(s@.subrange(0, i + 1) =~= a + m + seq![c]);
                lemma_escape_concat(a + m, seq![c]);
                lemma_escape_concat(a, m);
                assert(json_escape(seq![c]) =~= escape_char(c)) by {
                    assert(seq![c].drop_first() =~= Seq::<char>::empty());
                    assert(json_escape(Seq::<char>::empty()) =~= Seq::<char>::empty());
                    assert(seq![c][0] == c);
                    assert(json_escape(seq![c]) == escape_char(c) + json_escape(
                        Seq::<char>::empty(),
                    ));
                }
                assert(out@ =~= init + json_escape(s@.subrange(0, i + 1)));
            }
            start = i + 1;
        }
        i += 1;
    }
    let tail = s.substring_char(start, cs.len());
    out.append(tail);
    proof {
        let a = s@.subrange(0, start as int);
        let m = s@.subrange(start as int, cs.len() as int);
        assert forall|k: int| 0 <= k < m.len() implies !needs_escape(#[trigger] m[k]) by {
            assert(m[k] == s@[start + k]);
        }
        lemma_escape_plain(m);
        lemma_escape_concat(a, m);
        assert(a + m =~= s@);
    }
}

} // verus!
