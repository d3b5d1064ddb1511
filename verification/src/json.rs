use vstd::prelude::*;

use crate::text::{decimal, escape_each, lemma_escape_each_first, push_char, push_decimal};

verus! {

/// The error type of `serde_json`.
#[verifier::external_type_specification]
#[verifier::external_body]
pub struct ExJsonError(serde_json::Error);

/// The lowercase hexadecimal digit for `d` (below 16), as used in the
/// `\u00XX` escapes of control characters.
pub open spec fn json_hex_digit(d: u32) -> char {
    if d < 10 {
        (('0' as u32) + d) as char
    } else {
        (('a' as u32) + (d - 10)) as char
    }
}

/// How one character is written inside a JSON string.
pub open spec fn json_escape_char(c: char) -> Seq<char> {
    let v = c as u32;
    if c == '"' {
        seq!['\\', '"']
    } else if c == '\\' {
        seq!['\\', '\\']
    } else if v == 0x08 {
        seq!['\\', 'b']
    } else if v == 0x09 {
        seq!['\\', 't']
    } else if v == 0x0A {
        seq!['\\', 'n']
    } else if v == 0x0C {
        seq!['\\', 'f']
    } else if v == 0x0D {
        seq!['\\', 'r']
    } else if v < 0x20 {
        seq!['\\', 'u', '0', '0', json_hex_digit(v / 16), json_hex_digit(v % 16)]
    } else {
        seq![c]
    }
}

/// The body of the JSON string literal for `s`.
pub open spec fn json_escape(s: Seq<char>) -> Seq<char> {
    escape_each(s, |c: char| json_escape_char(c))
}

/// The JSON string literal for `s`.
pub open spec fn json_quoted(s: Seq<char>) -> Seq<char> {
    seq!['"'] + json_escape(s) + seq!['"']
}

/// Calls `serde_json::to_string` on a string slice. The source serializes a
/// `str` by writing `"`, the characters of the string with `"`, `\` and the
/// characters below U+0020 escaped (the short forms `\b \t \n \f \r`, else
/// `\u00` and two lowercase hex digits), and a closing `"`, into a `Vec<u8>`;
/// writing into a `Vec<u8>` does not fail, so the call returns `Ok`.
#[verifier::external_body]
fn serde_json_to_string(s: &str) -> (res: Result<String, serde_json::Error>)
    ensures
        match res {
            Ok(t) => t@ == json_quoted(s@),
            Err(_) => false,
        },
{
    serde_json::to_string(s)
}

/// The JSON string literal for `s`.
pub fn json_string(s: &str) -> (res: String)
    ensures
        res@ == json_quoted(s@),
{
    serde_json_to_string(s).unwrap()
}

/// One member of a JSON object: the key as a string literal, a colon, and
/// the value's JSON text.
pub open spec fn json_member(kv: (Seq<char>, Seq<char>)) -> Seq<char> {
    json_quoted(kv.0) + seq![':'] + kv.1
}

/// The members of a JSON object, separated by commas.
pub open spec fn json_members(m: Seq<(Seq<char>, Seq<char>)>) -> Seq<char>
    decreases m.len(),
{
    if m.len() == 0 {
        Seq::empty()
    } else if m.len() == 1 {
        json_member(m[0])
    } else {
        json_members(m.drop_last()) + seq![','] + json_member(m.last())
    }
}

/// The compact JSON object with the members `m` (keys with the JSON text of
/// their values), in the order given.
pub open spec fn json_object(m: Seq<(Seq<char>, Seq<char>)>) -> Seq<char> {
    seq!['{'] + json_members(m) + seq!['}']
}

/// Writes the compact JSON object with the given members; each value is
/// already JSON text.
pub fn json_object_text(members: &Vec<(String, String)>) -> (res: String)
    ensures
        res@ == json_object(members.deep_view()),
{
    let ghost m = members.deep_view();
    let mut out = String::new();
    push_char(&mut out, '{');
    let mut i: usize = 0;
    proof {
        assert(m.take(0) == Seq::<(Seq<char>, Seq<char>)>::empty());
    }
    while i < members.len()
        invariant
            i <= members.len(),
            m == members.deep_view(),
            out@ == seq!['{'] + json_members(m.take(i as int)),
        decreases members.len() - i,
    {
        if i > 0 {
            push_char(&mut out, ',');
        }
        let key = json_string(members[i].0.as_str());
        out.append(key.as_str());
        push_char(&mut out, ':');
        out.append(members[i].1.as_str());
        proof {
            let t = m.take(i + 1);
            assert(t.drop_last() == m.take(i as int));
            assert(t.last() == m[i as int]);
            assert(m[i as int] == (members@[i as int].0@, members@[i as int].1@));
            if i == 0 {
                assert(t.len() == 1);
                assert(t[0] == m[0]);
                assert(out@ =~= seq!['{'] + json_members(t));
            } else {
                assert(out@ =~= seq!['{'] + json_members(t));
            }
        }
        i = i + 1;
    }
    push_char(&mut out, '}');
    proof {
        assert(m.take(members.len() as int) == m);
    }
    out
}

/// The string literals of `items`, separated by commas.
pub open spec fn json_items(items: Seq<Seq<char>>) -> Seq<char>
    decreases items.len(),
{
    if items.len() == 0 {
        Seq::empty()
    } else if items.len() == 1 {
        json_quoted(items[0])
    } else {
        json_items(items.drop_last()) + seq![','] + json_quoted(items.last())
    }
}

/// The compact JSON array of the strings `items`.
pub open spec fn json_string_array(items: Seq<Seq<char>>) -> Seq<char> {
    seq!['['] + json_items(items) + seq![']']
}

/// Writes the compact JSON array of the strings `items`.
pub fn json_string_array_text(items: &Vec<String>) -> (res: String)
    ensures
        res@ == json_string_array(items.deep_view()),
{
    let ghost m = items.deep_view();
    let mut out = String::new();
    push_char(&mut out, '[');
    let mut i: usize = 0;
    proof {
        assert(m.take(0) == Seq::<Seq<char>>::empty());
    }
    while i < items.len()
        invariant
            i <= items.len(),
            m == items.deep_view(),
            out@ == seq!['['] + json_items(m.take(i as int)),
        decreases items.len() - i,
    {
        if i > 0 {
            push_char(&mut out, ',');
        }
        let q = json_string(items[i].as_str());
        out.append(q.as_str());
        proof {
            let t = m.take(i + 1);
            assert(t.drop_last() == m.take(i as int));
            assert(t.last() == m[i as int]);
            if i == 0 {
                assert(t.len() == 1);
                assert(t[0] == m[0]);
            }
            assert(out@ =~= seq!['['] + json_items(t));
        }
        i = i + 1;
    }
    push_char(&mut out, ']');
    proof {
        assert(m.take(items.len() as int) == m);
    }
    out
}

/// The JSON text of a boolean.
pub open spec fn json_bool(b: bool) -> Seq<char> {
    if b {
        seq!['t', 'r', 'u', 'e']
    } else {
        seq!['f', 'a', 'l', 's', 'e']
    }
}

/// Writes the JSON text of a boolean.
pub fn json_bool_text(b: bool) -> (res: String)
    ensures
        res@ == json_bool(b),
{
    let mut out = String::new();
    if b {
        push_char(&mut out, 't');
        push_char(&mut out, 'r');
        push_char(&mut out, 'u');
        push_char(&mut out, 'e');
    } else {
        push_char(&mut out, 'f');
        push_char(&mut out, 'a');
        push_char(&mut out, 'l');
        push_char(&mut out, 's');
        push_char(&mut out, 'e');
    }
    proof {
        assert(out@ =~= json_bool(b));
    }
    out
}

/// The JSON `null`.
pub open spec fn json_null() -> Seq<char> {
    seq!['n', 'u', 'l', 'l']
}

/// Writes the JSON `null`.
pub fn json_null_text() -> (res: String)
    ensures
        res@ == json_null(),
{
    let mut out = String::new();
    push_char(&mut out, 'n');
    push_char(&mut out, 'u');
    push_char(&mut out, 'l');
    push_char(&mut out, 'l');
    proof {
        assert(out@ =~= json_null());
    }
    out
}

/// The JSON text of an optional count: the number, or `null`.
pub open spec fn json_opt_count(n: Option<usize>) -> Seq<char> {
    match n {
        Some(v) => decimal(v as nat),
        None => json_null(),
    }
}

/// Writes the JSON text of an optional count.
pub fn json_opt_count_text(n: Option<usize>) -> (res: String)
    ensures
        res@ == json_opt_count(n),
{
    match n {
        Some(v) => {
            let mut out = String::new();
            push_decimal(&mut out, v as u64);
            out
        },
        None => json_null_text(),
    }
}

/// The JSON text of an optional boolean: the boolean, or `null`.
pub open spec fn json_opt_bool(b: Option<bool>) -> Seq<char> {
    match b {
        Some(v) => json_bool(v),
        None => json_null(),
    }
}

/// Writes the JSON text of an optional boolean.
pub fn json_opt_bool_text(b: Option<bool>) -> (res: String)
    ensures
        res@ == json_opt_bool(b),
{
    match b {
        Some(v) => json_bool_text(v),
        None => json_null_text(),
    }
}

/// The JSON text of an optional list of strings: the array, or `null`.
pub open spec fn json_opt_strings(v: Option<Seq<Seq<char>>>) -> Seq<char> {
    match v {
        Some(items) => json_string_array(items),
        None => json_null(),
    }
}

/// The value of a hexadecimal digit.
pub open spec fn hex_value(c: char) -> Option<u32> {
    let v = c as u32;
    if 0x30 <= v <= 0x39 {
        Some((v - 0x30) as u32)
    } else if 0x61 <= v <= 0x66 {
        Some((v - 0x61 + 10) as u32)
    } else if 0x41 <= v <= 0x46 {
        Some((v - 0x41 + 10) as u32)
    } else {
        None
    }
}

/// The character that a JSON reader takes from the escape sequence at the
/// start of `b` (which starts with a backslash), and the sequence's length.
pub open spec fn json_read_escape(b: Seq<char>) -> Option<(char, nat)> {
    if b.len() < 2 {
        None
    } else {
        let e = b[1];
        if e == '"' {
            Some(('"', 2))
        } else if e == '\\' {
            Some(('\\', 2))
        } else if e == '/' {
            Some(('/', 2))
        } else if e == 'b' {
            Some(('\u{8}', 2))
        } else if e == 'f' {
            Some(('\u{c}', 2))
        } else if e == 'n' {
            Some(('\n', 2))
        } else if e == 'r' {
            Some(('\r', 2))
        } else if e == 't' {
            Some(('\t', 2))
        } else if e == 'u' && b.len() >= 6 {
            match (hex_value(b[2]), hex_value(b[3]), hex_value(b[4]), hex_value(b[5])) {
                (Some(d1), Some(d2), Some(d3), Some(d4)) => {
                    let v = d1 * 4096 + d2 * 256 + d3 * 16 + d4;
                    if v < 0xD800 {
                        Some((v as char, 6))
                    } else {
                        None
                    }
                },
                _ => None,
            }
        } else {
            None
        }
    }
}

/// What a JSON reader takes from the body of a string literal (the text
/// between its quotes): `None` when the body is not valid JSON. Escapes of
/// surrogate code points are not read.
pub open spec fn json_read_body(b: Seq<char>) -> Option<Seq<char>>
    decreases b.len(),
{
    if b.len() == 0 {
        Some(Seq::empty())
    } else if b[0] == '"' || (b[0] as u32) < 0x20 {
        None
    } else if b[0] == '\\' {
        match json_read_escape(b) {
            Some((c, n)) => if 1 <= n <= b.len() {
                match json_read_body(b.skip(n as int)) {
                    Some(r) => Some(seq![c] + r),
                    None => None,
                }
            } else {
                None
            },
            None => None,
        }
    } else {
        match json_read_body(b.drop_first()) {
            Some(r) => Some(seq![b[0]] + r),
            None => None,
        }
    }
}

/// What a JSON reader takes from a string literal.
pub open spec fn json_read_string(w: Seq<char>) -> Option<Seq<char>> {
    if w.len() >= 2 && w[0] == '"' && w.last() == '"' {
        json_read_body(w.subrange(1, w.len() - 1))
    } else {
        None
    }
}

proof fn lemma_hex_digit_reads_back(d: u32)
    requires
        d < 16,
    ensures
        hex_value(json_hex_digit(d)) == Some(d),
{
    broadcast use vstd::utf8::char_u32_cast;

    if d < 10 {
        assert(((('0' as u32) + d) as char) as u32 == 0x30 + d);
    } else {
        assert(((('a' as u32) + (d - 10)) as char) as u32 == 0x61 + d - 10);
    }
}

proof fn lemma_json_escape_char_reads_back(c: char, rest: Seq<char>)
    ensures
        json_read_body(json_escape_char(c) + rest) == match json_read_body(rest) {
            Some(r) => Some(seq![c] + r),
            None => None,
        },
{
    let v = c as u32;
    let b = json_escape_char(c) + rest;
    if c == '"' || c == '\\' || v == 0x08 || v == 0x09 || v == 0x0A || v == 0x0C || v == 0x0D {
        assert(b[0] == '\\');
        assert(b.skip(2) == rest);
        assert(json_read_escape(b) == Some((c, 2nat)));
    } else if v < 0x20 {
        let hi = v / 16;
        let lo = v % 16;
        lemma_hex_digit_reads_back(hi);
        lemma_hex_digit_reads_back(lo);
        assert(b[0] == '\\');
        assert(b[1] == 'u');
        assert(b[2] == '0' && b[3] == '0');
        assert(b[4] == json_hex_digit(hi) && b[5] == json_hex_digit(lo));
        assert(hex_value('0') == Some(0u32));
        assert(0 * 4096 + 0 * 256 + hi * 16 + lo == v);
        assert((v as char) == c);
        assert(json_read_escape(b) == Some((c, 6nat)));
        assert(b.skip(6) == rest);
    } else {
        assert(b[0] == c);
        assert(b.drop_first() == rest);
    }
}

proof fn lemma_json_escape_reads_back(s: Seq<char>)
    ensures
        json_read_body(json_escape(s)) == Some(s),
    decreases s.len(),
{
    if s.len() == 0 {
        assert(json_escape(s) == Seq::<char>::empty());
    } else {
        lemma_escape_each_first(s, |c: char| json_escape_char(c));
        lemma_json_escape_reads_back(s.drop_first());
        lemma_json_escape_char_reads_back(s[0], json_escape(s.drop_first()));
        assert(seq![s[0]] + s.drop_first() == s);
    }
}

/// A JSON reader takes back from `json_quoted(s)` exactly `s`.
pub proof fn lemma_json_quoted_reads_back(s: Seq<char>)
    ensures
        json_read_string(json_quoted(s)) == Some(s),
{
    let w = json_quoted(s);
    lemma_json_escape_reads_back(s);
    assert(w.subrange(1, w.len() - 1) == json_escape(s));
}

} // verus!
