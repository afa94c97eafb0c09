//! Reading the region the picker printed: `x,y wxh`.

use vstd::prelude::*;

use super::CaptureError;
use crate::chars::{append_chars, chars_of, concat_chars, string_from_chars};
use crate::numbers::{
    decimal_chars, int_error_text, lemma_decimal_digits, lemma_decimal_reads_back, parse_int,
    spec_decimal, spec_int_error_text, spec_parse_int, spec_signed_decimal,
};
use crate::text::{is_whitespace, spec_is_whitespace};

verus! {

/// A selected screen region: its top-left corner and positive size.
#[derive(Debug, Clone, Copy, PartialEq, Eq, Structural)]
pub struct CaptureSelection {
    pub x: i32,
    pub y: i32,
    pub width: u32,
    pub height: u32,
}

/// The whitespace-separated words of `s`, in order.
pub open spec fn spec_words(s: Seq<char>) -> Seq<Seq<char>>
    decreases s.len(),
{
    if s.len() == 0 {
        Seq::empty()
    } else {
        let prev = spec_words(s.drop_last());
        let c = s.last();
        if spec_is_whitespace(c) {
            prev
        } else if s.len() >= 2 && !spec_is_whitespace(s[s.len() - 2]) && prev.len() > 0 {
            prev.update(prev.len() - 1, prev.last().push(c))
        } else {
            prev.push(seq![c])
        }
    }
}

/// Index of the first `c` in `s` at or after `i`.
pub open spec fn spec_find_char(s: Seq<char>, c: char, i: int) -> Option<int>
    decreases s.len() - i,
{
    if i < 0 || i >= s.len() {
        None
    } else if s[i] == c {
        Some(i)
    } else {
        spec_find_char(s, c, i + 1)
    }
}

/// `s` split around its first `c`, as `str::split_once` does.
pub open spec fn spec_split_once(s: Seq<char>, c: char) -> Option<(Seq<char>, Seq<char>)> {
    match spec_find_char(s, c, 0) {
        Some(k) => Some((s.take(k), s.skip(k + 1))),
        None => None,
    }
}

pub open spec fn spec_quoted_error(what: Seq<char>, text: Seq<char>, e: crate::numbers::IntParseError) -> Seq<char> {
    what + text + "': "@ + spec_int_error_text(e)
}

/// The region `geometry` describes, or the message of the `InvalidSelection` error it
/// gives: exactly two words `x,y` and `wxh`, coordinates read as `i32`, sizes as positive
/// `u32`.
pub open spec fn spec_region_selection(g: Seq<char>) -> Result<CaptureSelection, Seq<char>> {
    let words = spec_words(g);
    if words.len() != 2 {
        Err("invalid region geometry: "@ + g)
    } else {
        match spec_split_once(words[0], ',') {
            None => Err("invalid region position: "@ + words[0]),
            Some((xs, ys)) => match spec_split_once(words[1], 'x') {
                None => Err("invalid region size: "@ + words[1]),
                Some((ws, hs)) => match spec_parse_int(xs, true, i32::MIN as int, i32::MAX as int) {
                    Err(e) => Err(spec_quoted_error("invalid x coordinate '"@, xs, e)),
                    Ok(x) => match spec_parse_int(ys, true, i32::MIN as int, i32::MAX as int) {
                        Err(e) => Err(spec_quoted_error("invalid y coordinate '"@, ys, e)),
                        Ok(y) => match spec_parse_int(ws, false, 0, u32::MAX as int) {
                            Err(e) => Err(spec_quoted_error("invalid width '"@, ws, e)),
                            Ok(w) => match spec_parse_int(hs, false, 0, u32::MAX as int) {
                                Err(e) => Err(spec_quoted_error("invalid height '"@, hs, e)),
                                Ok(h) => if w == 0 || h == 0 {
                                    Err(
                                        "selection must be positive, got "@ + spec_decimal(
                                            w as nat,
                                        ) + "x"@ + spec_decimal(h as nat),
                                    )
                                } else {
                                    Ok(
                                        CaptureSelection {
                                            x: x as i32,
                                            y: y as i32,
                                            width: w as u32,
                                            height: h as u32,
                                        },
                                    )
                                },
                            },
                        },
                    },
                },
            },
        }
    }
}

fn words_of(s: &Vec<char>) -> (r: Vec<Vec<char>>)
    ensures
        r@.map_values(|w: Vec<char>| w@) == spec_words(s@),
{
    let mut words: Vec<Vec<char>> = Vec::new();
    let mut i: usize = 0;
    while i < s.len()
        invariant
            0 <= i <= s.len(),
            words@.map_values(|w: Vec<char>| w@) == spec_words(s@.take(i as int)),
        decreases s.len() - i,
    {
        let c = s[i];
        let ghost t = s@.take(i + 1);
        proof {
            assert(t.drop_last() =~= s@.take(i as int));
            assert(t.last() == c);
            if i >= 1 {
                assert(t[t.len() - 2] == s@[i - 1]);
            }
        }
        let ghost prev = words@.map_values(|w: Vec<char>| w@);
        if is_whitespace(c) {
        } else if i >= 1 && !is_whitespace(s[i - 1]) && words.len() > 0 {
            let last_index = words.len() - 1;
            let mut last = words.remove(last_index);
            last.push(c);
            words.push(last);
            assert(words@.map_values(|w: Vec<char>| w@) =~= prev.update(
                prev.len() - 1,
                prev.last().push(c),
            ));
        } else {
            let mut w: Vec<char> = Vec::new();
            w.push(c);
            words.push(w);
            assert(words@.map_values(|w: Vec<char>| w@) =~= prev.push(seq![c]));
        }
        i = i + 1;
    }
    assert(s@.take(i as int) =~= s@);
    words
}

fn split_once(s: &Vec<char>, c: char) -> (r: Option<(Vec<char>, Vec<char>)>)
    ensures
        match spec_split_once(s@, c) {
            Some((a, b)) => r matches Some(p) && p.0@ == a && p.1@ == b,
            None => r is None,
        },
{
    let mut k: usize = 0;
    while k < s.len() && s[k] != c
        invariant
            0 <= k <= s.len(),
            spec_find_char(s@, c, 0) == spec_find_char(s@, c, k as int),
        decreases s.len() - k,
    {
        k = k + 1;
    }
    if k == s.len() {
        return None;
    }
    let mut a: Vec<char> = Vec::new();
    let mut i: usize = 0;
    while i < k
        invariant
            0 <= i <= k < s.len(),
            a@ == s@.take(i as int),
        decreases k - i,
    {
        a.push(s[i]);
        i = i + 1;
        assert(a@ =~= s@.take(i as int));
    }
    let mut b: Vec<char> = Vec::new();
    let mut j: usize = k + 1;
    while j < s.len()
        invariant
            k + 1 <= j <= s.len(),
            b@ == s@.subrange(k + 1, j as int),
        decreases s.len() - j,
    {
        b.push(s[j]);
        j = j + 1;
        assert(b@ =~= s@.subrange(k + 1, j as int));
    }
    assert(b@ =~= s@.skip(k + 1));
    Some((a, b))
}

fn quoted_error(what: &str, text: &Vec<char>, e: crate::numbers::IntParseError) -> (r: CaptureError)
    ensures
        r matches CaptureError::InvalidSelection { message } && message@ == spec_quoted_error(
            what@,
            text@,
            e,
        ),
{
    let mut m = concat_chars(&chars_of(what), text);
    append_chars(&mut m, &chars_of("': "));
    append_chars(&mut m, &chars_of(int_error_text(e).as_str()));
    assert(m@ =~= spec_quoted_error(what@, text@, e));
    CaptureError::InvalidSelection { message: string_from_chars(&m) }
}

fn selection_error(what: &str, text: &Vec<char>) -> (r: CaptureError)
    ensures
        r matches CaptureError::InvalidSelection { message } && message@ == what@ + text@,
{
    CaptureError::InvalidSelection {
        message: string_from_chars(&concat_chars(&chars_of(what), text)),
    }
}

/// Reads the region the picker printed, `x,y wxh`; any other text gives `InvalidSelection`
/// with the message of `spec_region_selection`.
pub fn parse_region_selection(geometry: &str) -> (r: Result<CaptureSelection, CaptureError>)
    ensures
        match spec_region_selection(geometry@) {
            Ok(sel) => r == Ok::<CaptureSelection, CaptureError>(sel),
            Err(m) => r matches Err(CaptureError::InvalidSelection { message }) && message@ == m,
        },
        r matches Ok(sel) ==> sel.width > 0 && sel.height > 0,
{
    let g = chars_of(geometry);
    let words = words_of(&g);
    proof {
        assert(words@.map_values(|w: Vec<char>| w@).len() == words@.len());
    }
    if words.len() != 2 {
        return Err(selection_error("invalid region geometry: ", &g));
    }
    proof {
        assert(words@.map_values(|w: Vec<char>| w@)[0] == words@[0]@);
        assert(words@.map_values(|w: Vec<char>| w@)[1] == words@[1]@);
    }
    let (xs, ys) = match split_once(&words[0], ',') {
        Some(p) => p,
        None => {
            return Err(selection_error("invalid region position: ", &words[0]));
        },
    };
    let (ws, hs) = match split_once(&words[1], 'x') {
        Some(p) => p,
        None => {
            return Err(selection_error("invalid region size: ", &words[1]));
        },
    };
    let x = match parse_int(&xs, true, -2147483648, 2147483647) {
        Ok(v) => v,
        Err(e) => {
            return Err(quoted_error("invalid x coordinate '", &xs, e));
        },
    };
    let y = match parse_int(&ys, true, -2147483648, 2147483647) {
        Ok(v) => v,
        Err(e) => {
            return Err(quoted_error("invalid y coordinate '", &ys, e));
        },
    };
    let w = match parse_int(&ws, false, 0, 4294967295) {
        Ok(v) => v,
        Err(e) => {
            return Err(quoted_error("invalid width '", &ws, e));
        },
    };
    let h = match parse_int(&hs, false, 0, 4294967295) {
        Ok(v) => v,
        Err(e) => {
            return Err(quoted_error("invalid height '", &hs, e));
        },
    };
    proof {
        let words_view = spec_words(g@);
        assert(words_view[0] == words@[0]@);
        assert(words_view[1] == words@[1]@);
        assert(spec_split_once(words_view[0], ',') == Some((xs@, ys@)));
        assert(spec_split_once(words_view[1], 'x') == Some((ws@, hs@)));
        assert(spec_parse_int(xs@, true, i32::MIN as int, i32::MAX as int) == Ok::<int, crate::numbers::IntParseError>(x as int));
        assert(spec_parse_int(ys@, true, i32::MIN as int, i32::MAX as int) == Ok::<int, crate::numbers::IntParseError>(y as int));
        assert(spec_parse_int(ws@, false, 0, u32::MAX as int) == Ok::<int, crate::numbers::IntParseError>(w as int));
        assert(spec_parse_int(hs@, false, 0, u32::MAX as int) == Ok::<int, crate::numbers::IntParseError>(h as int));
    }
    if w == 0 || h == 0 {
        let mut m = chars_of("selection must be positive, got ");
        append_chars(&mut m, &decimal_chars(w as u128));
        append_chars(&mut m, &chars_of("x"));
        append_chars(&mut m, &decimal_chars(h as u128));
        assert(m@ =~= "selection must be positive, got "@ + spec_decimal(w as nat) + "x"@
            + spec_decimal(h as nat));
        return Err(CaptureError::InvalidSelection { message: string_from_chars(&m) });
    }
    Ok(CaptureSelection { x: x as i32, y: y as i32, width: w as u32, height: h as u32 })
}

/// Whether `s` has no whitespace.
pub open spec fn spec_no_whitespace(s: Seq<char>) -> bool {
    forall|i: int| 0 <= i < s.len() ==> !spec_is_whitespace(#[trigger] s[i])
}

proof fn lemma_words_single(s: Seq<char>)
    requires
        s.len() > 0,
        spec_no_whitespace(s),
    ensures
        spec_words(s) == seq![s],
    decreases s.len(),
{
    assert(!spec_is_whitespace(s[s.len() - 1]));
    if s.len() == 1 {
        assert(s.drop_last() =~= Seq::<char>::empty());
        assert(spec_words(s.drop_last()) == Seq::<Seq<char>>::empty());
        assert(seq![s.last()] =~= s);
        assert(Seq::<Seq<char>>::empty().push(seq![s.last()]) =~= seq![s]);
    } else {
        let p = s.drop_last();
        assert forall|i: int| 0 <= i < p.len() implies !spec_is_whitespace(#[trigger] p[i]) by {
            assert(p[i] == s[i]);
        }
        lemma_words_single(p);
        assert(!spec_is_whitespace(s[s.len() - 2]));
        assert(p.push(s.last()) =~= s);
        assert(seq![p].update(0, seq![p].last().push(s.last())) =~= seq![s]);
    }
}

proof fn lemma_words_pair(a: Seq<char>, b: Seq<char>)
    requires
        a.len() > 0,
        b.len() > 0,
        spec_no_whitespace(a),
        spec_no_whitespace(b),
    ensures
        spec_words(a + seq![' '] + b) == seq![a, b],
    decreases b.len(),
{
    let s = a + seq![' '] + b;
    if b.len() == 1 {
        let head = a + seq![' '];
        assert(s.drop_last() =~= head);
        assert(head.drop_last() =~= a);
        lemma_words_single(a);
        assert(spec_is_whitespace(head.last()));
        assert(spec_words(head) == seq![a]);
        assert(s[s.len() - 2] == ' ');
        assert(seq![b.last()] =~= b);
        assert(seq![a].push(seq![b.last()]) =~= seq![a, b]);
    } else {
        let b0 = b.drop_last();
        lemma_words_pair(a, b0);
        assert(s.drop_last() =~= a + seq![' '] + b0);
        assert(s[s.len() - 2] == b0.last());
        assert(b0.push(b.last()) =~= b);
        assert(seq![a, b0].update(1, b0.push(b.last())) =~= seq![a, b]);
    }
}

proof fn lemma_find_char_at(s: Seq<char>, c: char, i: int, k: int)
    requires
        0 <= i <= k < s.len(),
        s[k] == c,
        forall|j: int| i <= j < k ==> s[j] != c,
    ensures
        spec_find_char(s, c, i) == Some(k),
    decreases k - i,
{
    if i < k {
        lemma_find_char_at(s, c, i + 1, k);
    }
}

proof fn lemma_split_at(a: Seq<char>, c: char, b: Seq<char>)
    requires
        forall|j: int| 0 <= j < a.len() ==> a[j] != c,
    ensures
        spec_split_once(a + seq![c] + b, c) == Some((a, b)),
{
    let s = a + seq![c] + b;
    assert forall|j: int| 0 <= j < a.len() implies s[j] != c by {
        assert(s[j] == a[j]);
    }
    lemma_find_char_at(s, c, 0, a.len() as int);
    assert(s.take(a.len() as int) =~= a);
    assert(s.skip(a.len() as int + 1) =~= b);
}

proof fn lemma_decimal_text_plain(n: int)
    ensures
        spec_signed_decimal(n).len() > 0,
        spec_no_whitespace(spec_signed_decimal(n)),
        forall|j: int|
            0 <= j < spec_signed_decimal(n).len() ==> #[trigger] spec_signed_decimal(n)[j] != ','
                && spec_signed_decimal(n)[j] != 'x',
{
    let m: nat = if n < 0 {
        (-n) as nat
    } else {
        n as nat
    };
    lemma_decimal_digits(m);
    let s = spec_signed_decimal(n);
    assert forall|j: int| 0 <= j < s.len() implies !spec_is_whitespace(#[trigger] s[j]) && s[j]
        != ',' && s[j] != 'x' by {
        if n < 0 {
            if j > 0 {
                assert(s[j] == spec_decimal(m)[j - 1]);
            }
        } else {
            assert(s[j] == spec_decimal(m)[j]);
        }
    }
}

/// The geometry the region picker prints for a region: `x,y wxh`.
pub open spec fn spec_geometry_text(x: i32, y: i32, width: u32, height: u32) -> Seq<char> {
    spec_signed_decimal(x as int) + seq![','] + spec_signed_decimal(y as int) + seq![' ']
        + spec_signed_decimal(width as int) + seq!['x'] + spec_signed_decimal(height as int)
}

/// A region printed as `x,y wxh` reads back as that region, for a positive size.
pub proof fn lemma_geometry_text_reads_back(x: i32, y: i32, width: u32, height: u32)
    requires
        width > 0,
        height > 0,
    ensures
        spec_region_selection(spec_geometry_text(x, y, width, height)) == Ok::<
            CaptureSelection,
            Seq<char>,
        >(CaptureSelection { x, y, width, height }),
{
    let xs = spec_signed_decimal(x as int);
    let ys = spec_signed_decimal(y as int);
    let ws = spec_signed_decimal(width as int);
    let hs = spec_signed_decimal(height as int);
    lemma_decimal_text_plain(x as int);
    lemma_decimal_text_plain(y as int);
    lemma_decimal_text_plain(width as int);
    lemma_decimal_text_plain(height as int);
    let position = xs + seq![','] + ys;
    let size = ws + seq!['x'] + hs;
    assert(spec_no_whitespace(position)) by {
        assert forall|j: int| 0 <= j < position.len() implies !spec_is_whitespace(
            #[trigger] position[j],
        ) by {
            if j < xs.len() {
                assert(position[j] == xs[j]);
            } else if j > xs.len() {
                assert(position[j] == ys[j - xs.len() - 1]);
            }
        }
    }
    assert(spec_no_whitespace(size)) by {
        assert forall|j: int| 0 <= j < size.len() implies !spec_is_whitespace(#[trigger] size[j]) by {
            if j < ws.len() {
                assert(size[j] == ws[j]);
            } else if j > ws.len() {
                assert(size[j] == hs[j - ws.len() - 1]);
            }
        }
    }
    assert(spec_geometry_text(x, y, width, height) =~= position + seq![' '] + size);
    lemma_words_pair(position, size);
    lemma_split_at(xs, ',', ys);
    lemma_split_at(ws, 'x', hs);
    lemma_decimal_reads_back(x as int, true, i32::MIN as int, i32::MAX as int);
    lemma_decimal_reads_back(y as int, true, i32::MIN as int, i32::MAX as int);
    lemma_decimal_reads_back(width as int, false, 0, u32::MAX as int);
    lemma_decimal_reads_back(height as int, false, 0, u32::MAX as int);
}

} // verus!
