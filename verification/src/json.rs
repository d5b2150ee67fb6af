//! JSON text of the reply bodies that the library writes itself.

use vstd::prelude::*;

verus! {

/// The hexadecimal digit of `n` (`0 <= n < 16`), in lower case.
pub open spec fn hex_digit(n: int) -> char {
    if n < 10 {
        (48 + n) as char
    } else {
        (87 + n) as char
    }
}

/// How one character of a string stands inside a JSON string literal:
/// the quote, the backslash and the control characters are escaped, the
/// short forms are used where JSON has them, and every other character
/// stands for itself.
pub open spec fn json_escaped_char(c: char) -> Seq<char> {
    if c == '"' {
        seq!['\\', '"']
    } else if c == '\\' {
        seq!['\\', '\\']
    } else if c == '\x08' {
        seq!['\\', 'b']
    } else if c == '\t' {
        seq!['\\', 't']
    } else if c == '\n' {
        seq!['\\', 'n']
    } else if c == '\x0c' {
        seq!['\\', 'f']
    } else if c == '\r' {
        seq!['\\', 'r']
    } else if (c as int) < 32 {
        seq!['\\', 'u', '0', '0', hex_digit((c as int) / 16), hex_digit((c as int) % 16)]
    } else {
        seq![c]
    }
}

/// The escaped contents of a JSON string literal for `s`.
pub open spec fn json_escaped(s: Seq<char>) -> Seq<char>
    decreases s.len(),
{
    if s.len() == 0 {
        Seq::empty()
    } else {
        json_escaped_char(s[0]) + json_escaped(s.drop_first())
    }
}

/// The JSON string literal for `s`: the escaped contents between quotes.
pub open spec fn json_string(s: Seq<char>) -> Seq<char> {
    seq!['"'] + json_escaped(s) + seq!['"']
}

/// The value of a hexadecimal digit (either case), if `c` is one.
pub open spec fn hex_value(c: char) -> Option<int> {
    if '0' <= c && c <= '9' {
        Some((c as int) - 48)
    } else if 'a' <= c && c <= 'f' {
        Some((c as int) - 87)
    } else if 'A' <= c && c <= 'F' {
        Some((c as int) - 55)
    } else {
        None
    }
}

/// The code point written by the four hexadecimal digits at the start of `t`.
pub open spec fn hex4_value(t: Seq<char>) -> Option<int> {
    if t.len() < 4 {
        None
    } else {
        match (hex_value(t[0]), hex_value(t[1]), hex_value(t[2]), hex_value(t[3])) {
            (Some(a), Some(b), Some(c), Some(d)) => Some(a * 4096 + b * 256 + c * 16 + d),
            _ => None,
        }
    }
}

/// The character that the escape `\e` stands for in a JSON string, for
/// every escape but `\u`.
pub open spec fn short_escape(e: char) -> Option<char> {
    if e == '"' {
        Some('"')
    } else if e == '\\' {
        Some('\\')
    } else if e == '/' {
        Some('/')
    } else if e == 'b' {
        Some('\x08')
    } else if e == 'f' {
        Some('\x0c')
    } else if e == 'n' {
        Some('\n')
    } else if e == 'r' {
        Some('\r')
    } else if e == 't' {
        Some('\t')
    } else {
        None
    }
}

/// Reads the contents of a JSON string literal whose opening quote has been
/// read: the characters it stands for, and the text after its closing quote.
/// `None` where the text is not such contents: no closing quote, a raw control
/// character, an unknown escape, or a `\u` escape of a surrogate.
pub open spec fn json_unescape(t: Seq<char>) -> Option<(Seq<char>, Seq<char>)>
    decreases t.len(),
{
    if t.len() == 0 {
        None
    } else if t[0] == '"' {
        Some((Seq::empty(), t.drop_first()))
    } else if t[0] == '\\' {
        if t.len() < 2 {
            None
        } else if t[1] == 'u' {
            match hex4_value(t.skip(2)) {
                Some(v) => if 0xD800 <= v && v <= 0xDFFF {
                    None
                } else {
                    match json_unescape(t.skip(6)) {
                        Some((d, rest)) => Some((seq![v as char] + d, rest)),
                        None => None,
                    }
                },
                None => None,
            }
        } else {
            match short_escape(t[1]) {
                Some(c) => match json_unescape(t.skip(2)) {
                    Some((d, rest)) => Some((seq![c] + d, rest)),
                    None => None,
                },
                None => None,
            }
        }
    } else if (t[0] as int) < 32 {
        None
    } else {
        match json_unescape(t.drop_first()) {
            Some((d, rest)) => Some((seq![t[0]] + d, rest)),
            None => None,
        }
    }
}

/// Reads a JSON string literal at the start of `t`: the string it stands for
/// and the text after it.
pub open spec fn json_string_decode(t: Seq<char>) -> Option<(Seq<char>, Seq<char>)> {
    if t.len() > 0 && t[0] == '"' {
        json_unescape(t.drop_first())
    } else {
        None
    }
}

/// Reads a JSON object with the one member `key` whose value is a string,
/// written with no white space, as `{"key":"..."}`: the string, where `b` is
/// exactly such an object.
pub open spec fn json_object_field(key: Seq<char>, b: Seq<char>) -> Option<Seq<char>> {
    let head = seq!['{'] + json_string(key) + seq![':'];
    if b.len() >= head.len() && b.take(head.len() as int) == head {
        match json_string_decode(b.skip(head.len() as int)) {
            Some((v, rest)) => if rest == seq!['}'] {
                Some(v)
            } else {
                None
            },
            None => None,
        }
    } else {
        None
    }
}

proof fn lemma_hex_digit_value(n: int)
    requires
        0 <= n < 16,
    ensures
        hex_value(hex_digit(n)) == Some(n),
{
}

proof fn lemma_unescape_char(c: char, rest: Seq<char>)
    ensures
        json_unescape(json_escaped_char(c) + rest) == match json_unescape(rest) {
            Some((d, r)) => Some((seq![c] + d, r)),
            None => None::<(Seq<char>, Seq<char>)>,
        },
{
    let t = json_escaped_char(c) + rest;
    if c == '"' || c == '\\' || c == '\x08' || c == '\t' || c == '\n' || c == '\x0c' || c == '\r' {
        assert(t.skip(2) =~= rest);
    } else if (c as int) < 32 {
        let v = c as int;
        lemma_hex_digit_value(v / 16);
        lemma_hex_digit_value(v % 16);
        assert(t.skip(2).take(4) =~= seq!['0', '0', hex_digit(v / 16), hex_digit(v % 16)]);
        assert(hex4_value(t.skip(2)) == Some(v));
        assert(t.skip(6) =~= rest);
        assert((v as char) == c);
    } else {
        assert(t.drop_first() =~= rest);
    }
}

proof fn lemma_unescape_escaped(s: Seq<char>, rest: Seq<char>)
    ensures
        json_unescape(json_escaped(s) + seq!['"'] + rest) == Some((s, rest)),
    decreases s.len(),
{
    if s.len() == 0 {
        let t = json_escaped(s) + seq!['"'] + rest;
        assert(t =~= seq!['"'] + rest);
        assert(t.drop_first() =~= rest);
    } else {
        lemma_unescape_escaped(s.drop_first(), rest);
        let tail = json_escaped(s.drop_first()) + seq!['"'] + rest;
        lemma_unescape_char(s[0], tail);
        assert(json_escaped(s) + seq!['"'] + rest =~= json_escaped_char(s[0]) + tail);
        assert(seq![s[0]] + s.drop_first() =~= s);
    }
}

/// Reading back the JSON string literal written for `s` gives `s` and leaves
/// whatever text follows it.
pub proof fn law_json_string_reads_back(s: Seq<char>, rest: Seq<char>)
    ensures
        json_string_decode(json_string(s) + rest) == Some((s, rest)),
{
    let t = json_string(s) + rest;
    lemma_unescape_escaped(s, rest);
    assert(t.drop_first() =~= json_escaped(s) + seq!['"'] + rest);
}

/// Calls `serde_json::to_string` on a string slice. What it states is taken
/// from serde_json's serializer: when it succeeds, the text is the quoted
/// string with `"`, `\` and the characters below U+0020 escaped (the short
/// forms `\b \t \n \f \r` where they exist, `\u00xx` with lower-case hex
/// digits otherwise). It also states that the call succeeds: serde_json writes
/// a string slice into a `Vec<u8>`, and its string serializer fails only when
/// the writer does, which a vector never does. The error arm only converts
/// serde_json's error to its text.
#[verifier::external_body]
pub(crate) fn json_string_literal(s: &str) -> (r: Result<String, String>)
    ensures
        r is Ok,
        r matches Ok(t) ==> t@ == json_string(s@),
{
    match serde_json::to_string(s) {
        Ok(t) => Ok(t),
        Err(e) => Err(e.to_string()),
    }
}

} // verus!
