//! Decimal rendering of integers and JSON string escaping, the two text
//! primitives that every wire payload of the bridge is assembled from.

use vstd::prelude::*;
use vstd::string::StrSliceExecFns;
use vstd::string::StringExecFns;

verus! {

/// The character for one digit value (decimal or the low hex digits).
pub open spec fn digit_char(d: nat) -> char {
    if d == 0 {
        '0'
    } else if d == 1 {
        '1'
    } else if d == 2 {
        '2'
    } else if d == 3 {
        '3'
    } else if d == 4 {
        '4'
    } else if d == 5 {
        '5'
    } else if d == 6 {
        '6'
    } else if d == 7 {
        '7'
    } else if d == 8 {
        '8'
    } else if d == 9 {
        '9'
    } else if d == 10 {
        'a'
    } else if d == 11 {
        'b'
    } else if d == 12 {
        'c'
    } else if d == 13 {
        'd'
    } else if d == 14 {
        'e'
    } else {
        'f'
    }
}

/// The decimal text of a natural number, most significant digit first.
pub open spec fn dec_digits(n: nat) -> Seq<char>
    decreases n,
{
    if n < 10 {
        seq![digit_char(n)]
    } else {
        dec_digits(n / 10).push(digit_char(n % 10))
    }
}

/// The decimal text of an integer, with a leading minus sign when negative.
pub open spec fn int_dec(n: int) -> Seq<char> {
    if n < 0 {
        seq!['-'] + dec_digits((-n) as nat)
    } else {
        dec_digits(n as nat)
    }
}

fn digit_ch(d: u8) -> (c: char)
    requires
        d < 16,
    ensures
        c == digit_char(d as nat),
{
    match d {
        0 => '0',
        1 => '1',
        2 => '2',
        3 => '3',
        4 => '4',
        5 => '5',
        6 => '6',
        7 => '7',
        8 => '8',
        9 => '9',
        10 => 'a',
        11 => 'b',
        12 => 'c',
        13 => 'd',
        14 => 'e',
        _ => 'f',
    }
}

/// Relies on std's String::push: appends the given character at the end.
#[verifier::external_body]
pub(crate) fn push_char(s: &mut String, c: char)
    ensures
        final(s)@ == old(s)@.push(c),
{
    s.push(c);
}

/// Renders an unsigned integer in decimal.
pub fn u64_dec(n: u64) -> (r: String)
    ensures
        r@ == dec_digits(n as nat),
    decreases n,
{
    if n < 10 {
        let mut s = String::new();
        push_char(&mut s, digit_ch(n as u8));
        proof {
            assert(s@ =~= seq![digit_char(n as nat)]);
        }
        s
    } else {
        let mut s = u64_dec(n / 10);
        push_char(&mut s, digit_ch((n % 10) as u8));
        s
    }
}

/// Renders a signed integer in decimal.
pub fn i32_dec(n: i32) -> (r: String)
    ensures
        r@ == int_dec(n as int),
{
    if n < 0 {
        let mut s = String::new();
        push_char(&mut s, '-');
        let m: u64 = (-(n as i64)) as u64;
        let d = u64_dec(m);
        s.append(d.as_str());
        proof {
            assert(s@ =~= seq!['-'] + dec_digits((-(n as int)) as nat));
        }
        s
    } else {
        u64_dec(n as u64)
    }
}

/// How one character is written inside a JSON string literal.
pub open spec fn esc_char(c: char) -> Seq<char> {
    if c == '"' {
        seq!['\\', '"']
    } else if c == '\\' {
        seq!['\\', '\\']
    } else if c == '\u{08}' {
        seq!['\\', 'b']
    } else if c == '\t' {
        seq!['\\', 't']
    } else if c == '\n' {
        seq!['\\', 'n']
    } else if c == '\u{0c}' {
        seq!['\\', 'f']
    } else if c == '\r' {
        seq!['\\', 'r']
    } else if (c as u32) < 0x20 {
        seq!['\\', 'u', '0', '0', digit_char(((c as u32) / 16) as nat), digit_char(
            ((c as u32) % 16) as nat,
        )]
    } else {
        seq![c]
    }
}

/// The body of a JSON string literal: every character escaped as JSON asks.
pub open spec fn esc_str(s: Seq<char>) -> Seq<char>
    decreases s.len(),
{
    if s.len() == 0 {
        Seq::empty()
    } else {
        esc_char(s[0]) + esc_str(s.drop_first())
    }
}

/// A complete JSON string literal: quotes around the escaped body.
pub open spec fn json_quoted(s: Seq<char>) -> Seq<char> {
    seq!['"'] + esc_str(s) + seq!['"']
}

proof fn lemma_esc_snoc(s: Seq<char>)
    requires
        s.len() > 0,
    ensures
        esc_str(s) == esc_str(s.drop_last()) + esc_char(s.last()),
    decreases s.len(),
{
    if s.len() == 1 {
        assert(s.drop_last() =~= Seq::<char>::empty());
        assert(esc_str(s.drop_last()) + esc_char(s.last()) =~= esc_char(s[0]) + esc_str(
            s.drop_first(),
        ));
    } else {
        lemma_esc_snoc(s.drop_first());
        assert(s.drop_first().drop_last() =~= s.drop_last().drop_first());
        assert(s.drop_first().last() == s.last());
        assert(s.drop_last()[0] == s[0]);
        assert(esc_str(s.drop_last()) == esc_char(s[0]) + esc_str(s.drop_last().drop_first()));
        assert(esc_char(s[0]) + (esc_str(s.drop_first().drop_last()) + esc_char(s.last())) =~= (
        esc_char(s[0]) + esc_str(s.drop_first().drop_last())) + esc_char(s.last()));
    }
}

/// Escapes every character of a string as JSON asks.
pub fn json_escape(s: &str) -> (r: String)
    ensures
        r@ == esc_str(s@),
{
    let n = s.unicode_len();
    let mut out = String::new();
    let mut i: usize = 0;
    while i < n
        invariant
            i <= n,
            n == s@.len(),
            out@ == esc_str(s@.subrange(0, i as int)),
        decreases n - i,
    {
        let c = s.get_char(i);
        if c == '"' {
            out.append("\\\"");
            proof {
                reveal_strlit("\\\"");
            }
        } else if c == '\\' {
            out.append("\\\\");
            proof {
                reveal_strlit("\\\\");
            }
        } else if c == '\u{08}' {
            out.append("\\b");
            proof {
                reveal_strlit("\\b");
            }
        } else if c == '\t' {
            out.append("\\t");
            proof {
                reveal_strlit("\\t");
            }
        } else if c == '\n' {
            out.append("\\n");
            proof {
                reveal_strlit("\\n");
            }
        } else if c == '\u{0c}' {
            out.append("\\f");
            proof {
                reveal_strlit("\\f");
            }
        } else if c == '\r' {
            out.append("\\r");
            proof {
                reveal_strlit("\\r");
            }
        } else if (c as u32) < 0x20 {
            out.append("\\u00");
            proof {
                reveal_strlit("\\u00");
            }
            push_char(&mut out, digit_ch(((c as u32) / 16) as u8));
            push_char(&mut out, digit_ch(((c as u32) % 16) as u8));
        } else {
            push_char(&mut out, c);
        }
        proof {
            let pre = s@.subrange(0, i + 1);
            lemma_esc_snoc(pre);
            assert(pre.drop_last() =~= s@.subrange(0, i as int));
            assert(pre.last() == s@[i as int]);
            assert(out@ =~= esc_str(s@.subrange(0, i as int)) + esc_char(s@[i as int]));
        }
        i += 1;
    }
    proof {
        assert(s@.subrange(0, n as int) =~= s@);
    }
    out
}

/// Renders a complete JSON string literal for the given text.
pub fn json_string(s: &str) -> (r: String)
    ensures
        r@ == json_quoted(s@),
{
    let mut out = String::new();
    push_char(&mut out, '"');
    let body = json_escape(s);
    out.append(body.as_str());
    push_char(&mut out, '"');
    proof {
        assert(out@ =~= seq!['"'] + esc_str(s@) + seq!['"']);
    }
    out
}

/// Whether one text starts with another.
pub fn has_prefix(s: &str, p: &str) -> (r: bool)
    ensures
        r == (p@.len() <= s@.len() && s@.subrange(0, p@.len() as int) == p@),
{
    let pn = p.unicode_len();
    let sn = s.unicode_len();
    if pn > sn {
        proof {
            assert(!(p@.len() <= s@.len()));
        }
        return false;
    }
    let mut i: usize = 0;
    while i < pn
        invariant
            i <= pn,
            pn == p@.len(),
            sn == s@.len(),
            pn <= sn,
            forall|j: int| 0 <= j < i ==> s@[j] == p@[j],
        decreases pn - i,
    {
        if s.get_char(i) != p.get_char(i) {
            proof {
                assert(s@.subrange(0, p@.len() as int)[i as int] != p@[i as int]);
            }
            return false;
        }
        i += 1;
    }
    proof {
        assert(s@.subrange(0, p@.len() as int) =~= p@);
    }
    true
}

/// Whether two texts are equal, character by character.
pub fn str_equal(a: &str, b: &str) -> (r: bool)
    ensures
        r == (a@ == b@),
{
    if a.unicode_len() != b.unicode_len() {
        false
    } else {
        let r = has_prefix(a, b);
        proof {
            assert(a@.subrange(0, b@.len() as int) =~= a@);
        }
        r
    }
}

/// The views of a sequence of strings.
pub open spec fn views(v: Seq<String>) -> Seq<Seq<char>> {
    v.map_values(|s: String| s@)
}

/// The comma-separated interior of a JSON array of string literals.
pub open spec fn json_str_array_inner(lines: Seq<Seq<char>>) -> Seq<char>
    decreases lines.len(),
{
    if lines.len() == 0 {
        Seq::empty()
    } else if lines.len() == 1 {
        json_quoted(lines[0])
    } else {
        json_quoted(lines[0]) + seq![','] + json_str_array_inner(lines.drop_first())
    }
}

/// A JSON array holding one string literal per line.
pub open spec fn json_str_array(lines: Seq<Seq<char>>) -> Seq<char> {
    seq!['['] + json_str_array_inner(lines) + seq![']']
}

fn json_array_from(v: &Vec<String>, i: usize) -> (r: String)
    requires
        i <= v.len(),
    ensures
        r@ == json_str_array_inner(views(v@).skip(i as int)),
    decreases v.len() - i,
{
    if i == v.len() {
        let r = String::new();
        proof {
            assert(views(v@).skip(i as int) =~= Seq::<Seq<char>>::empty());
        }
        r
    } else {
        let mut out = json_string(v[i].as_str());
        proof {
            assert(views(v@).skip(i as int)[0] == v@[i as int]@);
        }
        if i + 1 < v.len() {
            push_char(&mut out, ',');
            let rest = json_array_from(v, i + 1);
            out.append(rest.as_str());
            proof {
                assert(views(v@).skip(i as int).drop_first() =~= views(v@).skip(i as int + 1));
                assert(out@ =~= json_quoted(views(v@).skip(i as int)[0]) + seq![',']
                    + json_str_array_inner(views(v@).skip(i as int).drop_first()));
            }
        } else {
            proof {
                assert(views(v@).skip(i as int).len() == 1);
            }
        }
        out
    }
}

/// Renders a JSON array of string literals, one per element.
pub fn json_string_array(v: &Vec<String>) -> (r: String)
    ensures
        r@ == json_str_array(views(v@)),
{
    let mut out = String::new();
    push_char(&mut out, '[');
    let inner = json_array_from(v, 0);
    out.append(inner.as_str());
    push_char(&mut out, ']');
    proof {
        assert(views(v@).skip(0) =~= views(v@));
        assert(out@ =~= seq!['['] + json_str_array_inner(views(v@)) + seq![']']);
    }
    out
}

} // verus!
