//! Character-level text helpers: whitespace trimming, ASCII case, UTF-8 widths, hex digits.

use vstd::prelude::*;

use crate::chars::{append_chars, chars_of};

verus! {

/// The Unicode `White_Space` characters, which `str::trim` removes.
pub open spec fn spec_is_whitespace(c: char) -> bool {
    let u = c as u32;
    (0x09 <= u <= 0x0D) || u == 0x20 || u == 0x85 || u == 0xA0 || u == 0x1680 || (0x2000 <= u
        <= 0x200A) || u == 0x2028 || u == 0x2029 || u == 0x202F || u == 0x205F || u == 0x3000
}

/// `s` without leading whitespace.
pub open spec fn spec_trim_start(s: Seq<char>) -> Seq<char>
    decreases s.len(),
{
    if s.len() > 0 && spec_is_whitespace(s[0]) {
        spec_trim_start(s.drop_first())
    } else {
        s
    }
}

/// `s` without trailing whitespace.
pub open spec fn spec_trim_end(s: Seq<char>) -> Seq<char>
    decreases s.len(),
{
    if s.len() > 0 && spec_is_whitespace(s.last()) {
        spec_trim_end(s.drop_last())
    } else {
        s
    }
}

/// `s` without leading and trailing whitespace.
pub open spec fn spec_trim(s: Seq<char>) -> Seq<char> {
    spec_trim_end(spec_trim_start(s))
}

/// `c` in lower case when it is an ASCII capital letter.
pub open spec fn spec_ascii_lower(c: char) -> char {
    if 'A' <= c <= 'Z' {
        ((c as u32) + 32) as char
    } else {
        c
    }
}

/// `s` with its ASCII capitals lowered.
pub open spec fn spec_ascii_lowercase(s: Seq<char>) -> Seq<char> {
    Seq::new(s.len(), |i: int| spec_ascii_lower(s[i]))
}

/// Bytes the UTF-8 encoding of `c` takes.
pub open spec fn spec_utf8_width(c: char) -> int {
    let u = c as u32;
    if u < 0x80 {
        1
    } else if u < 0x800 {
        2
    } else if u < 0x10000 {
        3
    } else {
        4
    }
}

/// Bytes the UTF-8 encoding of `s` takes.
pub open spec fn spec_utf8_len(s: Seq<char>) -> int
    decreases s.len(),
{
    if s.len() == 0 {
        0
    } else {
        spec_utf8_len(s.drop_last()) + spec_utf8_width(s.last())
    }
}

/// Whether `c` is an ASCII hexadecimal digit.
pub open spec fn spec_is_hex_digit(c: char) -> bool {
    ('0' <= c <= '9') || ('a' <= c <= 'f') || ('A' <= c <= 'F')
}

/// The value of a hexadecimal digit.
pub open spec fn spec_hex_value(c: char) -> int {
    if '0' <= c <= '9' {
        (c as u32) - ('0' as u32)
    } else if 'a' <= c <= 'f' {
        (c as u32) - ('a' as u32) + 10
    } else {
        (c as u32) - ('A' as u32) + 10
    }
}

/// Whether `needle` occurs in `hay` at position `i`.
pub open spec fn spec_occurs_at(hay: Seq<char>, needle: Seq<char>, i: int) -> bool {
    0 <= i && i + needle.len() <= hay.len() && hay.subrange(i, i + needle.len()) == needle
}

/// Whether `needle` occurs anywhere in `hay`.
pub open spec fn spec_contains(hay: Seq<char>, needle: Seq<char>) -> bool {
    exists|i: int| spec_occurs_at(hay, needle, i)
}

pub fn is_whitespace(c: char) -> (b: bool)
    ensures
        b == spec_is_whitespace(c),
{
    let u = c as u32;
    (0x09 <= u && u <= 0x0D) || u == 0x20 || u == 0x85 || u == 0xA0 || u == 0x1680 || (0x2000 <= u
        && u <= 0x200A) || u == 0x2028 || u == 0x2029 || u == 0x202F || u == 0x205F || u == 0x3000
}

proof fn lemma_trim_start_skip(s: Seq<char>, i: int)
    requires
        0 <= i <= s.len(),
        forall|j: int| 0 <= j < i ==> spec_is_whitespace(#[trigger] s[j]),
    ensures
        spec_trim_start(s) == spec_trim_start(s.subrange(i, s.len() as int)),
    decreases i,
{
    if i > 0 {
        assert(s.drop_first().subrange(i - 1, s.drop_first().len() as int) =~= s.subrange(i, s.len() as int));
        assert forall|j: int| 0 <= j < i - 1 implies spec_is_whitespace(#[trigger] s.drop_first()[j]) by {
            assert(s.drop_first()[j] == s[j + 1]);
        }
        lemma_trim_start_skip(s.drop_first(), i - 1);
    } else {
        assert(s.subrange(0, s.len() as int) =~= s);
    }
}

proof fn lemma_trim_end_skip(s: Seq<char>, k: int)
    requires
        0 <= k <= s.len(),
        forall|j: int| k <= j < s.len() ==> spec_is_whitespace(#[trigger] s[j]),
    ensures
        spec_trim_end(s) == spec_trim_end(s.subrange(0, k)),
    decreases s.len() - k,
{
    if k < s.len() {
        assert(s.drop_last().subrange(0, k) =~= s.subrange(0, k));
        assert forall|j: int| k <= j < s.drop_last().len() implies spec_is_whitespace(#[trigger] s.drop_last()[j]) by {
            assert(s.drop_last()[j] == s[j]);
        }
        lemma_trim_end_skip(s.drop_last(), k);
    } else {
        assert(s.subrange(0, k) =~= s);
    }
}

/// The characters of `s` without leading and trailing whitespace.
pub fn trimmed_chars(s: &str) -> (v: Vec<char>)
    ensures
        v@ == spec_trim(s@),
{
    let chars = chars_of(s);
    let mut start: usize = 0;
    while start < chars.len() && is_whitespace(chars[start])
        invariant
            0 <= start <= chars.len(),
            forall|j: int| 0 <= j < start ==> spec_is_whitespace(#[trigger] chars@[j]),
        decreases chars.len() - start,
    {
        start = start + 1;
    }
    let mut end: usize = chars.len();
    while end > start && is_whitespace(chars[end - 1])
        invariant
            start <= end <= chars.len(),
            forall|j: int| end <= j < chars.len() ==> spec_is_whitespace(#[trigger] chars@[j]),
        decreases end,
    {
        end = end - 1;
    }
    let mut v: Vec<char> = Vec::new();
    let mut i: usize = start;
    while i < end
        invariant
            start <= i <= end,
            end <= chars.len(),
            v@ == chars@.subrange(start as int, i as int),
        decreases end - i,
    {
        v.push(chars[i]);
        i = i + 1;
        assert(v@ =~= chars@.subrange(start as int, i as int));
    }
    proof {
        lemma_trim_start_skip(chars@, start as int);
        let rest = chars@.subrange(start as int, chars@.len() as int);
        if start < chars.len() {
            assert(rest[0] == chars@[start as int]);
            assert(!spec_is_whitespace(rest[0]));
            assert(spec_trim_start(rest) == rest);
        } else {
            assert(rest.len() == 0);
        }
        let k = end - start;
        assert forall|j: int| k <= j < rest.len() implies spec_is_whitespace(#[trigger] rest[j]) by {
            assert(rest[j] == chars@[start + j]);
        }
        lemma_trim_end_skip(rest, k as int);
        let cut = rest.subrange(0, k as int);
        assert(cut =~= chars@.subrange(start as int, end as int));
        if k > 0 {
            assert(cut.last() == chars@[end - 1]);
        }
    }
    v
}

/// `c` in lower case when it is an ASCII capital letter.
pub fn ascii_lower(c: char) -> (r: char)
    ensures
        r == spec_ascii_lower(c),
{
    if 'A' <= c && c <= 'Z' {
        let u = (c as u32) + 32;
        assert(0x61 <= u <= 0x7a);
        char_from_ascii(u)
    } else {
        c
    }
}

fn char_from_ascii(u: u32) -> (c: char)
    requires
        u < 0x80,
    ensures
        c == u as char,
{
    (u as u8) as char
}

/// The characters of `s` with ASCII capitals lowered.
pub fn ascii_lowercase_chars(s: &Vec<char>) -> (v: Vec<char>)
    ensures
        v@ == spec_ascii_lowercase(s@),
{
    let mut v: Vec<char> = Vec::new();
    let mut i: usize = 0;
    while i < s.len()
        invariant
            0 <= i <= s.len(),
            v@.len() == i,
            forall|j: int| 0 <= j < i ==> #[trigger] v@[j] == spec_ascii_lower(s@[j]),
        decreases s.len() - i,
    {
        v.push(ascii_lower(s[i]));
        i = i + 1;
    }
    assert(v@ =~= spec_ascii_lowercase(s@));
    v
}

/// Bytes the UTF-8 encoding of `c` takes.
pub fn utf8_width(c: char) -> (w: usize)
    ensures
        w == spec_utf8_width(c),
{
    let u = c as u32;
    if u < 0x80 {
        1
    } else if u < 0x800 {
        2
    } else if u < 0x10000 {
        3
    } else {
        4
    }
}

/// Bytes the UTF-8 encoding of `s` takes, or `None` past `usize`.
pub fn utf8_len(s: &Vec<char>) -> (n: usize)
    requires
        s@.len() * 4 <= usize::MAX,
    ensures
        n == spec_utf8_len(s@),
{
    let mut n: usize = 0;
    let mut i: usize = 0;
    while i < s.len()
        invariant
            0 <= i <= s.len(),
            s@.len() * 4 <= usize::MAX,
            n == spec_utf8_len(s@.subrange(0, i as int)),
            n <= 4 * i,
        decreases s.len() - i,
    {
        assert(s@.subrange(0, i + 1).drop_last() =~= s@.subrange(0, i as int));
        n = n + utf8_width(s[i]);
        i = i + 1;
    }
    assert(s@.subrange(0, i as int) =~= s@);
    n
}

pub fn is_hex_digit(c: char) -> (b: bool)
    ensures
        b == spec_is_hex_digit(c),
{
    ('0' <= c && c <= '9') || ('a' <= c && c <= 'f') || ('A' <= c && c <= 'F')
}

pub fn hex_value(c: char) -> (v: u8)
    requires
        spec_is_hex_digit(c),
    ensures
        v == spec_hex_value(c),
        v < 16,
{
    if '0' <= c && c <= '9' {
        ((c as u32) - ('0' as u32)) as u8
    } else if 'a' <= c && c <= 'f' {
        ((c as u32) - ('a' as u32) + 10) as u8
    } else {
        ((c as u32) - ('A' as u32) + 10) as u8
    }
}

/// Whether `needle` occurs in `hay`.
pub fn contains_chars(hay: &Vec<char>, needle: &Vec<char>) -> (b: bool)
    ensures
        b == spec_contains(hay@, needle@),
{
    if needle.len() > hay.len() {
        proof {
            assert forall|i: int| !spec_occurs_at(hay@, needle@, i) by {}
        }
        return false;
    }
    let mut i: usize = 0;
    while i <= hay.len() - needle.len()
        invariant
            needle.len() <= hay.len(),
            0 <= i <= hay.len() - needle.len() + 1,
            forall|k: int| 0 <= k < i ==> !#[trigger] spec_occurs_at(hay@, needle@, k),
        decreases hay.len() - i,
    {
        let mut j: usize = 0;
        let mut matched = true;
        while j < needle.len()
            invariant
                i + needle.len() <= hay.len(),
                0 <= j <= needle.len(),
                matched == (forall|m: int| 0 <= m < j ==> hay@[i + m] == needle@[m]),
            decreases needle.len() - j,
        {
            if hay[i + j] != needle[j] {
                matched = false;
            }
            j = j + 1;
        }
        if matched {
            proof {
                assert(hay@.subrange(i as int, i + needle.len()) =~= needle@);
                assert(spec_occurs_at(hay@, needle@, i as int));
            }
            return true;
        }
        proof {
            assert(!spec_occurs_at(hay@, needle@, i as int)) by {
                if spec_occurs_at(hay@, needle@, i as int) {
                    assert forall|m: int| 0 <= m < needle.len() implies hay@[i + m] == needle@[m] by {
                        assert(hay@.subrange(i as int, i + needle.len())[m] == hay@[i + m]);
                    }
                }
            }
        }
        i = i + 1;
    }
    proof {
        assert forall|k: int| !spec_occurs_at(hay@, needle@, k) by {
            if 0 <= k < i {
                assert(!spec_occurs_at(hay@, needle@, k));
            }
        }
    }
    false
}

proof fn lemma_utf8_len_prefix_grows(s: Seq<char>, i: int, j: int)
    requires
        0 <= i <= j <= s.len(),
    ensures
        spec_utf8_len(s.subrange(0, i)) <= spec_utf8_len(s.subrange(0, j)),
    decreases j - i,
{
    if i < j {
        lemma_utf8_len_prefix_grows(s, i, j - 1);
        assert(s.subrange(0, j).drop_last() =~= s.subrange(0, j - 1));
    }
}

/// Whether the UTF-8 encoding of `s` takes exactly `target` bytes.
pub fn utf8_len_is(s: &Vec<char>, target: usize) -> (b: bool)
    ensures
        b == (spec_utf8_len(s@) == target),
{
    let mut n: usize = 0;
    let mut i: usize = 0;
    while i < s.len()
        invariant
            0 <= i <= s.len(),
            n == spec_utf8_len(s@.subrange(0, i as int)),
            n <= target,
        decreases s.len() - i,
    {
        assert(s@.subrange(0, i + 1).drop_last() =~= s@.subrange(0, i as int));
        let w = utf8_width(s[i]);
        if w > target - n {
            proof {
                lemma_utf8_len_prefix_grows(s@, i + 1, s@.len() as int);
                assert(s@.subrange(0, s@.len() as int) =~= s@);
            }
            return false;
        }
        n = n + w;
        i = i + 1;
    }
    assert(s@.subrange(0, i as int) =~= s@);
    n == target
}

/// The texts joined by line breaks.
pub open spec fn spec_join_lines(texts: Seq<Seq<char>>) -> Seq<char>
    decreases texts.len(),
{
    if texts.len() == 0 {
        Seq::empty()
    } else if texts.len() == 1 {
        texts[0]
    } else {
        spec_join_lines(texts.drop_last()) + seq!['\n'] + texts.last()
    }
}

pub open spec fn spec_char_vecs(parts: Seq<Vec<char>>) -> Seq<Seq<char>> {
    parts.map_values(|p: Vec<char>| p@)
}

/// The parts joined by line breaks.
pub fn join_lines(parts: &Vec<Vec<char>>) -> (v: Vec<char>)
    ensures
        v@ == spec_join_lines(spec_char_vecs(parts@)),
{
    let ghost texts = spec_char_vecs(parts@);
    let mut out: Vec<char> = Vec::new();
    let mut k: usize = 0;
    while k < parts.len()
        invariant
            0 <= k <= parts.len(),
            texts == spec_char_vecs(parts@),
            out@ == spec_join_lines(texts.take(k as int)),
        decreases parts.len() - k,
    {
        if k > 0 {
            out.push('\n');
        }
        append_chars(&mut out, &parts[k]);
        proof {
            assert(texts.take(k + 1).drop_last() =~= texts.take(k as int));
            if k == 0 {
                assert(out@ =~= texts.take(1)[0]);
            }
        }
        k = k + 1;
    }
    assert(texts.take(k as int) =~= texts);
    out
}

} // verus!
