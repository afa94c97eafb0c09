//! Conversions between strings and character vectors.

use vstd::prelude::*;

verus! {

/// `String::push`: appends `c` at the end of `s`. The contract claims that the string's
/// characters afterwards are the former ones followed by `c`, as std documents.
#[verifier::external_body]
pub(crate) fn push_char(s: &mut String, c: char)
    ensures
        final(s)@ == old(s)@.push(c),
{
    s.push(c);
}

/// The string made of the given characters.
pub fn string_from_chars(chars: &Vec<char>) -> (s: String)
    ensures
        s@ == chars@,
{
    let mut s = String::new();
    let mut i: usize = 0;
    while i < chars.len()
        invariant
            0 <= i <= chars.len(),
            s@ == chars@.subrange(0, i as int),
        decreases chars.len() - i,
    {
        push_char(&mut s, chars[i]);
        i = i + 1;
        assert(s@ =~= chars@.subrange(0, i as int));
    }
    assert(chars@.subrange(0, i as int) =~= chars@);
    s
}

/// The characters of a string, in order.
pub fn chars_of(s: &str) -> (v: Vec<char>)
    ensures
        v@ == s@,
{
    let mut v: Vec<char> = Vec::new();
    for c in it: s.chars()
        invariant
            v@ == it.seq().take(it.index() as int),
    {
        v.push(c);
    }
    v
}

} // verus!

verus! {

/// Whether two strings hold the same characters.
pub fn same_text(a: &str, b: &str) -> (same: bool)
    ensures
        same == (a@ == b@),
{
    let x = chars_of(a);
    let y = chars_of(b);
    if x.len() != y.len() {
        return false;
    }
    let mut i: usize = 0;
    while i < x.len()
        invariant
            x@ == a@,
            y@ == b@,
            x.len() == y.len(),
            0 <= i <= x.len(),
            forall|j: int| 0 <= j < i ==> x@[j] == y@[j],
        decreases x.len() - i,
    {
        if x[i] != y[i] {
            return false;
        }
        i = i + 1;
    }
    assert(x@ =~= y@);
    true
}

/// A copy of a string.
pub fn copy_text(s: &str) -> (r: String)
    ensures
        r@ == s@,
{
    string_from_chars(&chars_of(s))
}

/// Appends the characters of `tail` to `v`.
pub fn append_chars(v: &mut Vec<char>, tail: &Vec<char>)
    ensures
        final(v)@ == old(v)@ + tail@,
{
    let ghost start = v@;
    let mut i: usize = 0;
    while i < tail.len()
        invariant
            0 <= i <= tail.len(),
            v@ == start + tail@.take(i as int),
        decreases tail.len() - i,
    {
        v.push(tail[i]);
        i = i + 1;
        assert(v@ =~= start + tail@.take(i as int));
    }
    assert(tail@.take(i as int) =~= tail@);
}

/// The characters of `a` followed by those of `b`.
pub fn concat_chars(a: &Vec<char>, b: &Vec<char>) -> (v: Vec<char>)
    ensures
        v@ == a@ + b@,
{
    let mut v: Vec<char> = Vec::new();
    append_chars(&mut v, a);
    append_chars(&mut v, b);
    assert(v@ =~= a@ + b@);
    v
}

/// A lowercase hexadecimal digit.
pub open spec fn spec_hex_digit(d: int) -> char {
    if d < 10 {
        (48 + d) as char
    } else {
        (87 + d) as char
    }
}

/// How `{:?}` writes one character of a string: quotes, backslashes and the common control
/// characters get a backslash escape, other ASCII control characters a `\u{..}` escape in
/// lowercase hexadecimal, and everything else stands as it is.
pub open spec fn spec_debug_char(c: char) -> Seq<char> {
    if c == '"' {
        seq!['\\', '"']
    } else if c == '\\' {
        seq!['\\', '\\']
    } else if c == '\n' {
        seq!['\\', 'n']
    } else if c == '\r' {
        seq!['\\', 'r']
    } else if c == '\t' {
        seq!['\\', 't']
    } else if c == '\0' {
        seq!['\\', '0']
    } else if (c as u32) < 16 {
        seq!['\\', 'u', '{', spec_hex_digit(c as int), '}']
    } else if (c as u32) < 32 || (c as u32) == 127 {
        seq!['\\', 'u', '{', spec_hex_digit((c as int) / 16), spec_hex_digit((c as int) % 16), '}']
    } else {
        seq![c]
    }
}

/// The characters of `s` escaped one by one as `spec_debug_char` says.
pub open spec fn spec_debug_escape(s: Seq<char>) -> Seq<char>
    decreases s.len(),
{
    if s.len() == 0 {
        Seq::empty()
    } else {
        spec_debug_escape(s.drop_last()) + spec_debug_char(s.last())
    }
}

fn hex_digit(d: u32) -> (c: char)
    requires
        d < 16,
    ensures
        c == spec_hex_digit(d as int),
{
    let b: u8 = d as u8;
    if b < 10 {
        (48 + b) as char
    } else {
        (87 + b) as char
    }
}

fn push_debug_char(v: &mut Vec<char>, c: char)
    ensures
        final(v)@ == old(v)@ + spec_debug_char(c),
{
    let ghost start = v@;
    let code: u32 = c as u32;
    if c == '"' {
        v.push('\\');
        v.push('"');
    } else if c == '\\' {
        v.push('\\');
        v.push('\\');
    } else if c == '\n' {
        v.push('\\');
        v.push('n');
    } else if c == '\r' {
        v.push('\\');
        v.push('r');
    } else if c == '\t' {
        v.push('\\');
        v.push('t');
    } else if c == '\0' {
        v.push('\\');
        v.push('0');
    } else if code < 16 {
        v.push('\\');
        v.push('u');
        v.push('{');
        v.push(hex_digit(code));
        v.push('}');
    } else if code < 32 || code == 127 {
        v.push('\\');
        v.push('u');
        v.push('{');
        v.push(hex_digit(code / 16));
        v.push(hex_digit(code % 16));
        v.push('}');
    } else {
        v.push(c);
    }
    assert(v@ =~= start + spec_debug_char(c));
}

/// The characters of `s` as `{:?}` writes them between the quotes, for ASCII control
/// characters exactly; other characters are kept as they are.
pub fn debug_escape_chars(s: &str) -> (v: Vec<char>)
    ensures
        v@ == spec_debug_escape(s@),
{
    let chars = chars_of(s);
    let mut v: Vec<char> = Vec::new();
    let mut i: usize = 0;
    while i < chars.len()
        invariant
            0 <= i <= chars.len(),
            chars@ == s@,
            v@ == spec_debug_escape(chars@.take(i as int)),
        decreases chars.len() - i,
    {
        assert(chars@.take(i as int + 1).drop_last() =~= chars@.take(i as int));
        push_debug_char(&mut v, chars[i]);
        i = i + 1;
    }
    assert(chars@.take(i as int) =~= chars@);
    v
}

} // verus!
