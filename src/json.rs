//! JSON text for string values.

use vstd::prelude::*;

verus! {

/// The lower-case hexadecimal digit for `d < 16`.
pub open spec fn hex_digit(d: nat) -> char {
    seq!['0', '1', '2', '3', '4', '5', '6', '7', '8', '9', 'a', 'b', 'c', 'd', 'e', 'f'][d as int]
}

/// How one character stands inside a JSON string literal: the quote, the
/// backslash and the control characters are escaped, everything else stands
/// for itself.
pub open spec fn escape_char(c: char) -> Seq<char> {
    if c == '"' {
        seq!['\\', '"']
    } else if c == '\\' {
        seq!['\\', '\\']
    } else if c == '\u{8}' {
        seq!['\\', 'b']
    } else if c == '\t' {
        seq!['\\', 't']
    } else if c == '\n' {
        seq!['\\', 'n']
    } else if c == '\u{c}' {
        seq!['\\', 'f']
    } else if c == '\r' {
        seq!['\\', 'r']
    } else if (c as u32) < 0x20 {
        seq!['\\', 'u', '0', '0', hex_digit((c as u32 / 16) as nat), hex_digit((c as u32 % 16) as nat)]
    } else {
        seq![c]
    }
}

/// The escaped characters of `s`, one escape after another.
pub open spec fn escaped(s: Seq<char>) -> Seq<char>
    decreases s.len(),
{
    if s.len() == 0 {
        Seq::empty()
    } else {
        escaped(s.drop_last()) + escape_char(s.last())
    }
}

/// The JSON string literal that stands for `s`.
pub open spec fn json_quoted(s: Seq<char>) -> Seq<char> {
    seq!['"'] + escaped(s) + seq!['"']
}

/// The characters that are written as an escape.
pub open spec fn needs_escape(c: char) -> bool {
    c == '"' || c == '\\' || (c as u32) < 0x20
}

proof fn lemma_hex_digit(d: nat)
    requires
        d < 16,
    ensures
        (hex_digit(d) as u32) as int == if d < 10 {
            48 + d
        } else {
            87 + d
        },
{
    if d == 0 {
        assert(hex_digit(d) == '0');
    } else if d == 1 {
        assert(hex_digit(d) == '1');
    } else if d == 2 {
        assert(hex_digit(d) == '2');
    } else if d == 3 {
        assert(hex_digit(d) == '3');
    } else if d == 4 {
        assert(hex_digit(d) == '4');
    } else if d == 5 {
        assert(hex_digit(d) == '5');
    } else if d == 6 {
        assert(hex_digit(d) == '6');
    } else if d == 7 {
        assert(hex_digit(d) == '7');
    } else if d == 8 {
        assert(hex_digit(d) == '8');
    } else if d == 9 {
        assert(hex_digit(d) == '9');
    } else if d == 10 {
        assert(hex_digit(d) == 'a');
    } else if d == 11 {
        assert(hex_digit(d) == 'b');
    } else if d == 12 {
        assert(hex_digit(d) == 'c');
    } else if d == 13 {
        assert(hex_digit(d) == 'd');
    } else if d == 14 {
        assert(hex_digit(d) == 'e');
    } else {
        assert(hex_digit(d) == 'f');
    }
}

proof fn lemma_escape_char_shape(c: char)
    ensures
        escape_char(c).len() >= 1,
        !needs_escape(c) ==> escape_char(c) == seq![c],
        needs_escape(c) ==> escape_char(c).len() >= 2 && escape_char(c)[0] == '\\',
        escape_char(c)[0] != '"',
{
}

/// No escape is the start of another: the first escape and what follows it
/// are both determined.
proof fn lemma_escape_char_prefix(a: char, b: char, x: Seq<char>, y: Seq<char>)
    requires
        escape_char(a) + x == escape_char(b) + y,
    ensures
        a == b,
        x == y,
{
    let ea = escape_char(a);
    let eb = escape_char(b);
    let l = ea + x;
    lemma_escape_char_shape(a);
    lemma_escape_char_shape(b);
    assert(l[0] == ea[0]);
    assert((eb + y)[0] == eb[0]);
    if needs_escape(a) && needs_escape(b) {
        assert(l[1] == ea[1]);
        assert((eb + y)[1] == eb[1]);
        if ea.len() == 6 && eb.len() == 6 {
            assert(l[4] == ea[4] && (eb + y)[4] == eb[4]);
            assert(l[5] == ea[5] && (eb + y)[5] == eb[5]);
            let ua = a as u32;
            let ub = b as u32;
            lemma_hex_digit((ua / 16) as nat);
            lemma_hex_digit((ub / 16) as nat);
            lemma_hex_digit((ua % 16) as nat);
            lemma_hex_digit((ub % 16) as nat);
            assert(ua / 16 == ub / 16);
            assert(ua % 16 == ub % 16);
            assert(ua == ub);
        }
    }
    assert(a == b);
    assert(x =~= l.subrange(ea.len() as int, l.len() as int));
    assert(y =~= (eb + y).subrange(eb.len() as int, l.len() as int));
}

proof fn lemma_escaped_front(c: char, s: Seq<char>)
    ensures
        escaped(seq![c] + s) == escape_char(c) + escaped(s),
    decreases s.len(),
{
    let t = seq![c] + s;
    if s.len() == 0 {
        assert(t.drop_last() =~= Seq::<char>::empty());
        assert(escaped(Seq::<char>::empty()) == Seq::<char>::empty());
        assert(escape_char(c) + escaped(s) =~= escape_char(c));
        assert(escaped(t) =~= escape_char(c));
    } else {
        assert(t.drop_last() =~= seq![c] + s.drop_last());
        lemma_escaped_front(c, s.drop_last());
        assert(escaped(t) =~= escape_char(c) + escaped(s));
    }
}

/// The escaped text of a string and what follows its closing quote are
/// determined by the whole: a JSON string literal ends at the first quote
/// that no backslash introduces.
pub proof fn lemma_escaped_then_quote(a: Seq<char>, b: Seq<char>, x: Seq<char>, y: Seq<char>)
    requires
        escaped(a) + seq!['"'] + x == escaped(b) + seq!['"'] + y,
    ensures
        a == b,
        x == y,
    decreases a.len() + b.len(),
{
    let l = escaped(a) + seq!['"'] + x;
    if a.len() == 0 || b.len() == 0 {
        if a.len() > 0 {
            assert(a =~= seq![a[0]] + a.drop_first());
            lemma_escaped_front(a[0], a.drop_first());
            lemma_escape_char_shape(a[0]);
            assert(l[0] == escape_char(a[0])[0]);
            assert((escaped(b) + seq!['"'] + y)[0] == '"');
        } else if b.len() > 0 {
            assert(b =~= seq![b[0]] + b.drop_first());
            lemma_escaped_front(b[0], b.drop_first());
            lemma_escape_char_shape(b[0]);
            assert((escaped(b) + seq!['"'] + y)[0] == escape_char(b[0])[0]);
            assert(l[0] == '"');
        }
        assert(a =~= b);
        assert(escaped(a) == Seq::<char>::empty());
        assert(x =~= l.subrange(1, l.len() as int));
        assert(y =~= (escaped(b) + seq!['"'] + y).subrange(1, l.len() as int));
    } else {
        let a1 = a.drop_first();
        let b1 = b.drop_first();
        assert(a =~= seq![a[0]] + a1);
        assert(b =~= seq![b[0]] + b1);
        lemma_escaped_front(a[0], a1);
        lemma_escaped_front(b[0], b1);
        assert(l =~= escape_char(a[0]) + (escaped(a1) + seq!['"'] + x));
        assert(escaped(b) + seq!['"'] + y =~= escape_char(b[0]) + (escaped(b1) + seq!['"']
            + y));
        lemma_escape_char_prefix(a[0], b[0], escaped(a1) + seq!['"'] + x, escaped(b1) + seq!['"'] + y);
        lemma_escaped_then_quote(a1, b1, x, y);
    }
}

/// Relies on `serde_json::to_string` on a `str`: it writes `"`, then each
/// character of the string, where `"`, `\` and the characters below U+0020
/// are replaced by their escapes (`\b`, `\t`, `\n`, `\f`, `\r` where there is
/// one, else `\u00` and two lower-case hex digits), then `"`. Serialising a
/// `str` into memory does not fail.
#[verifier::external_body]
pub(crate) fn quote_json(s: &str) -> (r: String)
    ensures
        r@ == json_quoted(s@),
{
    serde_json::to_string(s).unwrap_or_default()
}

} // verus!
