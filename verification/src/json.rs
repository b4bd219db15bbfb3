//! JSON string literals as `serde_json` writes them, and the fact that a
//! literal can be read back unambiguously.

use vstd::prelude::*;

verus! {

/// The lowercase hexadecimal digit for `d`, for `0 <= d < 16`.
pub open spec fn hex_digit(d: int) -> char {
    if d < 10 {
        (('0' as int) + d) as char
    } else {
        (('a' as int) + d - 10) as char
    }
}

/// How `serde_json` writes one character inside a string literal: `"` and
/// `\` behind a backslash, backspace, tab, line feed, form feed and carriage
/// return as `\b \t \n \f \r`, the other characters below U+0020 as `\u00`
/// and two lowercase hexadecimal digits, and every other character as it is.
pub open spec fn json_char(c: char) -> Seq<char> {
    if c == '"' {
        seq!['\\', '"']
    } else if c == '\\' {
        seq!['\\', '\\']
    } else if c == '\u{8}' {
        seq!['\\', 'b']
    } else if c == '\t' {
        seq!['\\', 't']
    } else if c == '\n' {
        seq!['\\', 'n']
    } else if c == '\u{c}' {
        seq!['\\', 'f']
    } else if c == '\r' {
        seq!['\\', 'r']
    } else if (c as int) < 0x20 {
        seq!['\\', 'u', '0', '0', hex_digit((c as int) / 16), hex_digit((c as int) % 16)]
    } else {
        seq![c]
    }
}

/// The characters of `s`, each written as `json_char` does.
pub open spec fn json_chars(s: Seq<char>) -> Seq<char>
    decreases s.len(),
{
    if s.len() == 0 {
        Seq::empty()
    } else {
        json_char(s[0]) + json_chars(s.drop_first())
    }
}

/// The JSON string literal that `serde_json` writes for `s`.
pub open spec fn json_string(s: Seq<char>) -> Seq<char> {
    seq!['"'] + json_chars(s) + seq!['"']
}

proof fn lemma_hex_digit(d: int)
    requires
        0 <= d < 16,
    ensures
        hex_digit(d) as int == if d < 10 { '0' as int + d } else { 'a' as int + d - 10 },
{
}

proof fn lemma_hex_digit_injective(d: int, e: int)
    requires
        0 <= d < 16,
        0 <= e < 16,
        hex_digit(d) == hex_digit(e),
    ensures
        d == e,
{
    lemma_hex_digit(d);
    lemma_hex_digit(e);
}

/// A written character never starts with a double quote, and starts with a
/// backslash exactly when it is escaped.
proof fn lemma_json_char_head(c: char)
    ensures
        json_char(c).len() >= 1,
        json_char(c)[0] != '"',
        json_char(c)[0] != '\\' ==> json_char(c) == seq![c],
        json_char(c)[0] == '\\' ==> json_char(c).len() >= 2,
        json_char(c)[0] == '\\' && json_char(c)[1] == 'u' ==> json_char(c).len() == 6
            && (c as int) < 0x20,
        json_char(c)[0] == '\\' && json_char(c)[1] != 'u' ==> json_char(c).len() == 2,
{
}

/// Where two written characters start a text, they are the same character,
/// and what follows is the same.
proof fn lemma_json_char_prefix(a: char, b: char, x: Seq<char>, y: Seq<char>)
    requires
        json_char(a) + x == json_char(b) + y,
    ensures
        a == b,
        x == y,
{
    let ea = json_char(a);
    let eb = json_char(b);
    lemma_json_char_head(a);
    lemma_json_char_head(b);
    assert((ea + x)[0] == ea[0]);
    assert((eb + y)[0] == eb[0]);
    if ea[0] != '\\' {
        assert(a == b);
    } else {
        assert((ea + x)[1] == ea[1]);
        assert((eb + y)[1] == eb[1]);
        if ea[1] == 'u' {
            assert((ea + x)[4] == ea[4]);
            assert((eb + y)[4] == eb[4]);
            assert((ea + x)[5] == ea[5]);
            assert((eb + y)[5] == eb[5]);
            lemma_hex_digit_injective((a as int) / 16, (b as int) / 16);
            lemma_hex_digit_injective((a as int) % 16, (b as int) % 16);
            assert(a as int == b as int);
        } else {
            assert(a == b);
        }
    }
    assert(x =~= (ea + x).subrange(ea.len() as int, (ea + x).len() as int));
    assert(y =~= (eb + y).subrange(eb.len() as int, (eb + y).len() as int));
}

/// A written string followed by a double quote can be read back: the
/// characters and what follows the closing quote are determined.
pub proof fn lemma_json_chars_closed(a: Seq<char>, b: Seq<char>, x: Seq<char>, y: Seq<char>)
    requires
        json_chars(a) + seq!['"'] + x == json_chars(b) + seq!['"'] + y,
    ensures
        a == b,
        x == y,
    decreases a.len(),
{
    let q = seq!['"'];
    if a.len() == 0 {
        assert(json_chars(a) =~= Seq::<char>::empty());
        if b.len() > 0 {
            lemma_json_char_head(b[0]);
            assert((json_chars(b) + q + y) =~= json_char(b[0]) + (json_chars(b.drop_first()) + q
                + y));
            assert((json_chars(a) + q + x)[0] == '"');
            assert(false);
        }
        assert(json_chars(b) =~= Seq::<char>::empty());
        assert(x =~= (json_chars(a) + q + x).subrange(1, (json_chars(a) + q + x).len() as int));
        assert(y =~= (json_chars(b) + q + y).subrange(1, (json_chars(b) + q + y).len() as int));
    } else {
        lemma_json_char_head(a[0]);
        assert((json_chars(a) + q + x) =~= json_char(a[0]) + (json_chars(a.drop_first()) + q
            + x));
        if b.len() == 0 {
            assert(json_chars(b) =~= Seq::<char>::empty());
            assert((json_chars(b) + q + y)[0] == '"');
            assert(false);
        }
        assert((json_chars(b) + q + y) =~= json_char(b[0]) + (json_chars(b.drop_first()) + q
            + y));
        lemma_json_char_prefix(
            a[0],
            b[0],
            json_chars(a.drop_first()) + q + x,
            json_chars(b.drop_first()) + q + y,
        );
        lemma_json_chars_closed(a.drop_first(), b.drop_first(), x, y);
        assert(a =~= seq![a[0]] + a.drop_first());
        assert(b =~= seq![b[0]] + b.drop_first());
    }
}

/// Two written string literals followed by anything agree only where the
/// strings and what follows agree.
pub proof fn lemma_json_string_prefix(a: Seq<char>, b: Seq<char>, x: Seq<char>, y: Seq<char>)
    requires
        json_string(a) + x == json_string(b) + y,
    ensures
        a == b,
        x == y,
{
    let q = seq!['"'];
    let l = json_string(a) + x;
    let r = json_string(b) + y;
    assert(l.subrange(1, l.len() as int) =~= json_chars(a) + q + x);
    assert(r.subrange(1, r.len() as int) =~= json_chars(b) + q + y);
    lemma_json_chars_closed(a, b, x, y);
}

/// Whether `c` is written inside a string literal as it is.
pub open spec fn plain_char(c: char) -> bool {
    c != '"' && c != '\\' && (c as int) >= 0x20
}

/// A string with no quote, backslash or control character is written
/// between double quotes exactly as it is.
pub proof fn law_plain_string_unchanged(s: Seq<char>)
    requires
        forall|i: int| 0 <= i < s.len() ==> plain_char(#[trigger] s[i]),
    ensures
        json_string(s) == seq!['"'] + s + seq!['"'],
{
    lemma_plain_chars(s);
}

proof fn lemma_plain_chars(s: Seq<char>)
    requires
        forall|i: int| 0 <= i < s.len() ==> plain_char(#[trigger] s[i]),
    ensures
        json_chars(s) == s,
    decreases s.len(),
{
    if s.len() > 0 {
        assert(plain_char(s[0]));
        assert forall|i: int| 0 <= i < s.drop_first().len() implies plain_char(
            #[trigger] s.drop_first()[i],
        ) by {
            assert(s.drop_first()[i] == s[i + 1]);
        }
        lemma_plain_chars(s.drop_first());
        assert(json_char(s[0]) + s.drop_first() =~= s);
    }
}

} // verus!
