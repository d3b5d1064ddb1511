use vstd::prelude::*;
use vstd::utf8::encode_utf8;
use vstd::utf8::encode_scalar;

verus! {

/// Characters with the Unicode `White_Space` property.
pub open spec fn is_ws(c: char) -> bool {
    let v = c as u32;
    ||| 0x09 <= v <= 0x0D
    ||| v == 0x20
    ||| v == 0x85
    ||| v == 0xA0
    ||| v == 0x1680
    ||| 0x2000 <= v <= 0x200A
    ||| v == 0x2028
    ||| v == 0x2029
    ||| v == 0x202F
    ||| v == 0x205F
    ||| v == 0x3000
}

/// Characters of the Unicode general category `Cc` (control).
pub open spec fn is_control(c: char) -> bool {
    let v = c as u32;
    ||| v <= 0x1F
    ||| 0x7F <= v <= 0x9F
}

/// Whether `c` has the Unicode `White_Space` property.
pub fn char_is_whitespace(c: char) -> (res: bool)
    ensures
        res == is_ws(c),
{
    let v = c as u32;
    (0x09 <= v && v <= 0x0D) || v == 0x20 || v == 0x85 || v == 0xA0 || v == 0x1680 || (0x2000
        <= v && v <= 0x200A) || v == 0x2028 || v == 0x2029 || v == 0x202F || v == 0x205F || v
        == 0x3000
}

/// Whether `c` is a control character.
pub fn char_is_control(c: char) -> (res: bool)
    ensures
        res == is_control(c),
{
    let v = c as u32;
    v <= 0x1F || (0x7F <= v && v <= 0x9F)
}

/// The characters of `s`, in order.
pub fn chars_of(s: &str) -> (res: Vec<char>)
    ensures
        res@ == s@,
{
    broadcast use vstd::string::group_string_axioms;

    let mut out: Vec<char> = Vec::new();
    for c in it: s.chars()
        invariant
            it.seq() == s@,
            out@ == it.seq().take(it.index()),
    {
        proof {
            assert(it.seq().take(it.index() + 1) == it.seq().take(it.index()).push(c));
        }
        out.push(c);
    }
    out
}

/// Calls `String::push`, which appends the character `c` to `s`.
#[verifier::external_body]
pub(crate) fn push_char(s: &mut String, c: char)
    ensures
        final(s)@ == old(s)@.push(c),
{
    s.push(c);
}

/// How many whitespace characters `s` starts with.
pub open spec fn lead_ws(s: Seq<char>) -> nat
    decreases s.len(),
{
    if s.len() > 0 && is_ws(s[0]) {
        1 + lead_ws(s.drop_first())
    } else {
        0
    }
}

/// How many whitespace characters `s` ends with.
pub open spec fn trail_ws(s: Seq<char>) -> nat
    decreases s.len(),
{
    if s.len() > 0 && is_ws(s.last()) {
        1 + trail_ws(s.drop_last())
    } else {
        0
    }
}

/// `s` without its leading and trailing whitespace.
pub open spec fn trim(s: Seq<char>) -> Seq<char> {
    if lead_ws(s) == s.len() {
        Seq::empty()
    } else {
        s.subrange(lead_ws(s) as int, s.len() - trail_ws(s))
    }
}

/// Whether every character of `s` is whitespace.
pub open spec fn all_ws(s: Seq<char>) -> bool {
    forall|i: int| 0 <= i < s.len() ==> #[trigger] is_ws(s[i])
}

proof fn lemma_lead_ws(s: Seq<char>)
    ensures
        lead_ws(s) <= s.len(),
        forall|i: int| 0 <= i < lead_ws(s) ==> #[trigger] is_ws(s[i]),
        lead_ws(s) < s.len() ==> !is_ws(s[lead_ws(s) as int]),
    decreases s.len(),
{
    if s.len() > 0 && is_ws(s[0]) {
        lemma_lead_ws(s.drop_first());
        assert forall|i: int| 0 <= i < lead_ws(s) implies #[trigger] is_ws(s[i]) by {
            if i > 0 {
                assert(s[i] == s.drop_first()[i - 1]);
            }
        }
    }
}

proof fn lemma_trail_ws(s: Seq<char>)
    ensures
        trail_ws(s) <= s.len(),
        forall|i: int| s.len() - trail_ws(s) <= i < s.len() ==> #[trigger] is_ws(s[i]),
        trail_ws(s) < s.len() ==> !is_ws(s[s.len() - 1 - trail_ws(s)]),
    decreases s.len(),
{
    if s.len() > 0 && is_ws(s.last()) {
        lemma_trail_ws(s.drop_last());
        assert forall|i: int| s.len() - trail_ws(s) <= i < s.len() implies #[trigger] is_ws(
            s[i],
        ) by {
            if i < s.len() - 1 {
                assert(s[i] == s.drop_last()[i]);
            }
        }
    }
}

/// The whitespace counts are the only ones that fit the characters of `s`.
proof fn lemma_trim_bounds(s: Seq<char>, a: int, b: int)
    requires
        0 <= a <= s.len(),
        forall|i: int| 0 <= i < a ==> #[trigger] is_ws(s[i]),
        a < s.len() ==> !is_ws(s[a]),
        a < s.len() ==> a < b <= s.len() && !is_ws(s[b - 1]) && forall|i: int|
            b <= i < s.len() ==> #[trigger] is_ws(s[i]),
    ensures
        a == lead_ws(s),
        a == s.len() ==> trim(s) == Seq::<char>::empty() && all_ws(s),
        a < s.len() ==> b == s.len() - trail_ws(s) && trim(s) == s.subrange(a, b),
{
    lemma_lead_ws(s);
    lemma_trail_ws(s);
    if a < lead_ws(s) {
        assert(is_ws(s[a]));
    }
    if a > lead_ws(s) {
        assert(is_ws(s[lead_ws(s) as int]));
    }
    if a < s.len() {
        let t = s.len() - trail_ws(s);
        if b < t {
            assert(is_ws(s[t - 1]));
        }
        if b > t {
            assert(is_ws(s[b - 1]));
        }
    }
}

/// The positions where the trimmed text of `s` starts and ends.
pub fn trim_bounds(s: &Vec<char>) -> (res: (usize, usize))
    ensures
        res.0 <= res.1 <= s.len(),
        trim(s@) == s@.subrange(res.0 as int, res.1 as int),
        (res.0 == res.1) == all_ws(s@),
{
    let n = s.len();
    let mut a: usize = 0;
    while a < n && char_is_whitespace(s[a])
        invariant
            n == s.len(),
            a <= n,
            forall|i: int| 0 <= i < a ==> #[trigger] is_ws(s@[i]),
        decreases n - a,
    {
        a = a + 1;
    }
    if a == n {
        proof {
            lemma_trim_bounds(s@, a as int, a as int);
            assert(s@.subrange(a as int, a as int) == Seq::<char>::empty());
        }
        return (a, a);
    }
    let mut b: usize = n;
    while b > a + 1 && char_is_whitespace(s[b - 1])
        invariant
            n == s.len(),
            a < b <= n,
            !is_ws(s@[a as int]),
            forall|i: int| b <= i < n ==> #[trigger] is_ws(s@[i]),
        decreases b,
    {
        b = b - 1;
    }
    proof {
        lemma_trim_bounds(s@, a as int, b as int);
    }
    (a, b)
}

/// Number of bytes in the UTF-8 encoding of `c`.
pub open spec fn utf8_width(c: char) -> nat {
    let v = c as u32;
    if v <= 0x7F {
        1
    } else if v <= 0x7FF {
        2
    } else if v <= 0xFFFF {
        3
    } else {
        4
    }
}

proof fn lemma_encode_scalar_len(c: char)
    ensures
        encode_scalar(c as u32).len() == utf8_width(c),
{
    broadcast use vstd::utf8::char_is_scalar;

}

/// Encoding a string one character longer adds that character's bytes.
proof fn lemma_encode_utf8_push(s: Seq<char>, c: char)
    ensures
        encode_utf8(s.push(c)) == encode_utf8(s) + encode_scalar(c as u32),
    decreases s.len(),
{
    let e = encode_scalar(c as u32);
    if s.len() == 0 {
        assert(s.push(c).drop_first() == Seq::<char>::empty());
        assert(s.push(c)[0] == c);
        assert(encode_utf8(Seq::<char>::empty()) == Seq::<u8>::empty());
        assert(encode_utf8(s.push(c)) =~= e + Seq::<u8>::empty());
        assert(encode_utf8(s) + e =~= e);
    } else {
        lemma_encode_utf8_push(s.drop_first(), c);
        assert(s.push(c).drop_first() == s.drop_first().push(c));
        assert(s.push(c)[0] == s[0]);
        let h = encode_scalar(s[0] as u32);
        assert(encode_utf8(s.push(c)) == h + encode_utf8(s.drop_first().push(c)));
        assert(h + (encode_utf8(s.drop_first()) + e) =~= (h + encode_utf8(s.drop_first())) + e);
    }
}

/// Whether the UTF-8 encoding of the characters `s[lo..hi]` is longer than
/// `limit` bytes.
pub fn utf8_len_exceeds(s: &Vec<char>, lo: usize, hi: usize, limit: u32) -> (res: bool)
    requires
        lo <= hi <= s.len(),
    ensures
        res == (encode_utf8(s@.subrange(lo as int, hi as int)).len() > limit),
{
    let mut total: u64 = 0;
    let mut i: usize = lo;
    proof {
        assert(s@.subrange(lo as int, lo as int) == Seq::<char>::empty());
    }
    while i < hi
        invariant
            lo <= i <= hi <= s.len(),
            total == encode_utf8(s@.subrange(lo as int, i as int)).len(),
            total <= limit,
        decreases hi - i,
    {
        let c = s[i];
        let v = c as u32;
        let w: u64 = if v <= 0x7F {
            1
        } else if v <= 0x7FF {
            2
        } else if v <= 0xFFFF {
            3
        } else {
            4
        };
        proof {
            let prefix = s@.subrange(lo as int, i as int);
            assert(s@.subrange(lo as int, i + 1) == prefix.push(c));
            lemma_encode_utf8_push(prefix, c);
            lemma_encode_scalar_len(c);
        }
        total = total + w;
        i = i + 1;
        if total > limit as u64 {
            proof {
                lemma_encode_utf8_prefix_bound(s@.subrange(lo as int, hi as int), (i - lo) as int);
                assert(s@.subrange(lo as int, hi as int).take((i - lo) as int) == s@.subrange(
                    lo as int,
                    i as int,
                ));
            }
            return true;
        }
    }
    false
}

/// A prefix encodes to no more bytes than the whole.
proof fn lemma_encode_utf8_prefix_bound(s: Seq<char>, k: int)
    requires
        0 <= k <= s.len(),
    ensures
        encode_utf8(s.take(k)).len() <= encode_utf8(s).len(),
    decreases s.len() - k,
{
    if k < s.len() {
        lemma_encode_utf8_prefix_bound(s, k + 1);
        assert(s.take(k + 1) == s.take(k).push(s[k]));
        lemma_encode_utf8_push(s.take(k), s[k]);
    } else {
        assert(s.take(k) == s);
    }
}

/// Appends an owned copy of `s` to a list of strings.
pub fn push_owned(list: &mut Vec<String>, s: &str)
    ensures
        final(list).deep_view() == old(list).deep_view().push(s@),
{
    list.push(s.to_owned());
    proof {
        assert(list.deep_view() =~= old(list).deep_view().push(s@));
    }
}

/// Moves the strings of `other` to the end of `list`.
pub fn append_all(list: &mut Vec<String>, other: Vec<String>)
    ensures
        final(list).deep_view() == old(list).deep_view() + other.deep_view(),
{
    let ghost before = list.deep_view();
    let mut other = other;
    let ghost moved = other.deep_view();
    list.append(&mut other);
    proof {
        assert(list.deep_view() =~= before + moved);
    }
}

/// `part` joined under the directory `base`, with one `/` between them.
pub open spec fn path_join(base: Seq<char>, part: Seq<char>) -> Seq<char> {
    if base.len() == 0 || base.last() == '/' {
        base + part
    } else {
        base + seq!['/'] + part
    }
}

/// Joins the relative path `part` under the directory `base`.
pub fn join_path(base: &str, part: &str) -> (res: String)
    ensures
        res@ == path_join(base@, part@),
{
    let chars = chars_of(base);
    let mut out = base.to_owned();
    let n = chars.len();
    if n > 0 && chars[n - 1] != '/' {
        push_char(&mut out, '/');
    }
    out.append(part);
    out
}

/// The decimal digit for `d`.
pub open spec fn digit_char(d: nat) -> char {
    if d == 0 {
        '0'
    } else if d == 1 {
        '1'
    } else if d == 2 {
        '2'
    } else if d == 3 {
        '3'
    } else if d == 4 {
        '4'
    } else if d == 5 {
        '5'
    } else if d == 6 {
        '6'
    } else if d == 7 {
        '7'
    } else if d == 8 {
        '8'
    } else {
        '9'
    }
}

/// The decimal notation of `n`, without leading zeros.
pub open spec fn decimal(n: nat) -> Seq<char>
    decreases n,
{
    if n < 10 {
        seq![digit_char(n)]
    } else {
        decimal(n / 10) + seq![digit_char(n % 10)]
    }
}

/// Appends the decimal notation of `n` to `s`.
pub fn push_decimal(s: &mut String, n: u64)
    ensures
        final(s)@ == old(s)@ + decimal(n as nat),
    decreases n,
{
    if n >= 10 {
        push_decimal(s, n / 10);
    }
    let d = n % 10;
    let c = if d == 0 {
        '0'
    } else if d == 1 {
        '1'
    } else if d == 2 {
        '2'
    } else if d == 3 {
        '3'
    } else if d == 4 {
        '4'
    } else if d == 5 {
        '5'
    } else if d == 6 {
        '6'
    } else if d == 7 {
        '7'
    } else if d == 8 {
        '8'
    } else {
        '9'
    };
    push_char(s, c);
    proof {
        assert(s@ =~= old(s)@ + decimal(n as nat));
    }
}

/// Each character of `s` replaced by its text under `f`, all joined.
pub open spec fn escape_each(s: Seq<char>, f: spec_fn(char) -> Seq<char>) -> Seq<char>
    decreases s.len(),
{
    if s.len() == 0 {
        Seq::empty()
    } else {
        escape_each(s.drop_last(), f) + f(s.last())
    }
}

/// Escaping a joined string escapes each part.
pub proof fn lemma_escape_each_concat(a: Seq<char>, b: Seq<char>, f: spec_fn(char) -> Seq<char>)
    ensures
        escape_each(a + b, f) == escape_each(a, f) + escape_each(b, f),
    decreases b.len(),
{
    if b.len() == 0 {
        assert(a + b == a);
        assert(escape_each(a, f) + escape_each(b, f) == escape_each(a, f));
    } else {
        lemma_escape_each_concat(a, b.drop_last(), f);
        assert((a + b).drop_last() == a + b.drop_last());
        assert((a + b).last() == b.last());
        assert(escape_each(a, f) + (escape_each(b.drop_last(), f) + f(b.last())) == (
        escape_each(a, f) + escape_each(b.drop_last(), f)) + f(b.last()));
    }
}

/// The escaped text of a non-empty string starts with that of its first
/// character.
pub proof fn lemma_escape_each_first(t: Seq<char>, f: spec_fn(char) -> Seq<char>)
    requires
        t.len() > 0,
    ensures
        escape_each(t, f) == f(t[0]) + escape_each(t.drop_first(), f),
{
    lemma_escape_each_concat(seq![t[0]], t.drop_first(), f);
    assert(seq![t[0]] + t.drop_first() == t);
    assert(seq![t[0]].drop_last() == Seq::<char>::empty());
    assert(seq![t[0]].last() == t[0]);
    assert(escape_each(Seq::<char>::empty(), f) == Seq::<char>::empty());
    assert(escape_each(seq![t[0]], f) == Seq::<char>::empty() + f(t[0]));
    assert(Seq::<char>::empty() + f(t[0]) == f(t[0]));
}

} // verus!
