//! Debug-style escaping of a name, as derived debug formatting quotes it.
//!
//! The escapes cover the double quote, the backslash, and every control
//! character up to U+009F, exactly as derived debug formatting writes them.
//! Characters above U+009F pass through unchanged; derived formatting
//! additionally hex-escapes the unprintable and grapheme-extended ones among
//! them, whose classification rests on Unicode tables that this library does
//! not model.

use vstd::prelude::*;
use vstd::string::StrSliceExecFns;

use crate::decimal::digit_char;
use crate::decimal::digit_str;

verus! {

/// The character that stands for one lowercase hexadecimal digit.
pub open spec fn hex_digit_char(d: nat) -> char {
    if d < 10 {
        digit_char(d)
    } else if d == 10 {
        'a'
    } else if d == 11 {
        'b'
    } else if d == 12 {
        'c'
    } else if d == 13 {
        'd'
    } else if d == 14 {
        'e'
    } else {
        'f'
    }
}

/// The lowercase hexadecimal numeral of `n`: most significant digit first,
/// no leading zeros, and the numeral of zero is the single digit `0`.
pub open spec fn hex_digits(n: nat) -> Seq<char>
    decreases n,
{
    if n < 16 {
        seq![hex_digit_char(n)]
    } else {
        hex_digits(n / 16).push(hex_digit_char(n % 16))
    }
}

/// The escape of one character: the named escapes for the quote, the
/// backslash and the usual control characters, a `\u{..}` escape for the
/// other control characters up to U+009F, and every other character as it
/// stands.
pub open spec fn escape_char(c: char) -> Seq<char> {
    if c == '"' {
        seq!['\\', '"']
    } else if c == '\\' {
        seq!['\\', '\\']
    } else if c == '\0' {
        seq!['\\', '0']
    } else if c == '\t' {
        seq!['\\', 't']
    } else if c == '\r' {
        seq!['\\', 'r']
    } else if c == '\n' {
        seq!['\\', 'n']
    } else if (c as u32) < 0x20 || c as u32 == 0x7f || (0x80 <= c as u32 && c as u32 <= 0x9f) {
        seq!['\\', 'u', '{'] + hex_digits(c as u32 as nat) + seq!['}']
    } else {
        seq![c]
    }
}

/// The escape of a whole name: each character's escape, in order.
pub open spec fn escape_name(s: Seq<char>) -> Seq<char>
    decreases s.len(),
{
    if s.len() == 0 {
        Seq::empty()
    } else {
        escape_char(s[0]) + escape_name(s.skip(1))
    }
}

/// Escaping one character more escapes exactly that character's escape more.
pub proof fn lemma_escape_name_snoc(s: Seq<char>, c: char)
    ensures
        escape_name(s.push(c)) == escape_name(s) + escape_char(c),
    decreases s.len(),
{
    if s.len() == 0 {
        assert(s.push(c)[0] == c);
        assert(s.push(c).skip(1) =~= Seq::<char>::empty());
        assert(escape_name(Seq::<char>::empty()) == Seq::<char>::empty());
        assert(escape_name(s.push(c)) == escape_char(c) + escape_name(s.push(c).skip(1)));
        assert(escape_name(s) == Seq::<char>::empty());
        assert(escape_name(s.push(c)) =~= escape_name(s) + escape_char(c));
    } else {
        assert(s.push(c)[0] == s[0]);
        assert(s.push(c).skip(1) =~= s.skip(1).push(c));
        lemma_escape_name_snoc(s.skip(1), c);
        assert(escape_name(s.push(c)) == escape_char(s[0]) + escape_name(s.skip(1).push(c)));
        assert(escape_name(s) == escape_char(s[0]) + escape_name(s.skip(1)));
        assert(escape_name(s.push(c)) =~= escape_name(s) + escape_char(c));
    }
}

/// The one-character string for a hexadecimal digit below sixteen.
fn hex_digit_str(d: u32) -> (r: &'static str)
    requires
        d < 16,
    ensures
        r@ == seq![hex_digit_char(d as nat)],
{
    if d < 10 {
        digit_str(d)
    } else {
        let r: &'static str = if d == 10 {
            "a"
        } else if d == 11 {
            "b"
        } else if d == 12 {
            "c"
        } else if d == 13 {
            "d"
        } else if d == 14 {
            "e"
        } else {
            "f"
        };
        proof {
            reveal_strlit("a");
            reveal_strlit("b");
            reveal_strlit("c");
            reveal_strlit("d");
            reveal_strlit("e");
            reveal_strlit("f");
            assert(r@ =~= seq![hex_digit_char(d as nat)]);
        }
        r
    }
}

/// Renders `n` in lowercase hexadecimal, exactly as `hex_digits` describes.
pub fn u32_to_hex(n: u32) -> (s: String)
    ensures
        s@ == hex_digits(n as nat),
    decreases n,
{
    if n < 16 {
        String::from_str(hex_digit_str(n))
    } else {
        let mut s = u32_to_hex(n / 16);
        s.append(hex_digit_str(n % 16));
        proof {
            assert(s@ =~= hex_digits(n as nat));
        }
        s
    }
}

/// Relies on String::push: it appends the given character to the end of the
/// string and changes nothing else.
#[verifier::external_body]
fn push_char(s: &mut String, c: char)
    ensures
        final(s)@ == old(s)@ + seq![c],
{
    s.push(c);
}

/// Appends the escape of one character, exactly as `escape_char` describes.
fn append_escaped_char(out: &mut String, c: char)
    ensures
        final(out)@ == old(out)@ + escape_char(c),
{
    if c == '"' {
        out.append("\\\"");
        proof {
            reveal_strlit("\\\"");
            assert(out@ =~= old(out)@ + escape_char(c));
        }
    } else if c == '\\' {
        out.append("\\\\");
        proof {
            reveal_strlit("\\\\");
            assert(out@ =~= old(out)@ + escape_char(c));
        }
    } else if c == '\0' {
        out.append("\\0");
        proof {
            reveal_strlit("\\0");
            assert(out@ =~= old(out)@ + escape_char(c));
        }
    } else if c == '\t' {
        out.append("\\t");
        proof {
            reveal_strlit("\\t");
            assert(out@ =~= old(out)@ + escape_char(c));
        }
    } else if c == '\r' {
        out.append("\\r");
        proof {
            reveal_strlit("\\r");
            assert(out@ =~= old(out)@ + escape_char(c));
        }
    } else if c == '\n' {
        out.append("\\n");
        proof {
            reveal_strlit("\\n");
            assert(out@ =~= old(out)@ + escape_char(c));
        }
    } else {
        let code: u32 = c as u32;
        if code < 0x20 || code == 0x7f || (0x80 <= code && code <= 0x9f) {
            out.append("\\u{");
            let hex = u32_to_hex(code);
            out.append(hex.as_str());
            out.append("}");
            proof {
                reveal_strlit("\\u{");
                reveal_strlit("}");
                assert(out@ =~= old(out)@ + escape_char(c));
            }
        } else {
            push_char(out, c);
            proof {
                assert(out@ =~= old(out)@ + escape_char(c));
            }
        }
    }
}

/// Escapes a whole name, exactly as `escape_name` describes.
pub fn escape_name_str(s: &str) -> (r: String)
    ensures
        r@ == escape_name(s@),
{
    let n = s.unicode_len();
    let mut out = String::new();
    let mut i: usize = 0;
    proof {
        assert(s@.take(0) =~= Seq::<char>::empty());
    }
    while i < n
        invariant
            n == s@.len(),
            i <= n,
            out@ == escape_name(s@.take(i as int)),
        decreases n - i,
    {
        let c = s.get_char(i);
        proof {
            lemma_escape_name_snoc(s@.take(i as int), s@[i as int]);
            assert(s@.take(i as int).push(s@[i as int]) =~= s@.take(i as int + 1));
        }
        append_escaped_char(&mut out, c);
        i = i + 1;
    }
    proof {
        assert(s@.take(n as int) =~= s@);
    }
    out
}

} // verus!
