//! Working with text as a sequence of characters.

use vstd::prelude::*;
use crate::sequences::first_index_of;

verus! {

/// Whether a character is white space: the characters that Unicode gives the
/// property `White_Space`.
pub open spec fn is_space(c: char) -> bool {
    let n = c as u32;
    ||| 0x09 <= n <= 0x0D
    ||| n == 0x20
    ||| n == 0x85
    ||| n == 0xA0
    ||| n == 0x1680
    ||| 0x2000 <= n <= 0x200A
    ||| n == 0x2028
    ||| n == 0x2029
    ||| n == 0x202F
    ||| n == 0x205F
    ||| n == 0x3000
}

/// Whether a character is white space.
pub fn is_whitespace(c: char) -> (r: bool)
    ensures
        r == is_space(c),
{
    let n: u32 = c as u32;
    (0x09 <= n && n <= 0x0D) || n == 0x20 || n == 0x85 || n == 0xA0 || n == 0x1680 || (0x2000 <= n
        && n <= 0x200A) || n == 0x2028 || n == 0x2029 || n == 0x202F || n == 0x205F || n == 0x3000
}

/// The characters of a string.
pub fn chars(s: &str) -> (r: Vec<char>)
    ensures
        r@ == s@,
{
    let mut r: Vec<char> = Vec::new();
    for c in it: s.chars()
        invariant
            it.seq() == s@,
            r@ == s@.take(it.index() as int),
    {
        r.push(c);
        assert(s@.take(it.index() + 1) =~= s@.take(it.index() as int).push(c));
    }
    assert(s@.take(s@.len() as int) =~= s@);
    r
}

/// The first position in `s`, from `from` on, of a character that is white
/// space (if `space` holds) or is not (if it does not); the length of `s` if
/// there is none.
pub open spec fn scan(s: Seq<char>, from: int, space: bool) -> int
    decreases s.len() - from,
{
    if from < 0 || from >= s.len() {
        s.len() as int
    } else if is_space(s[from]) == space {
        from
    } else {
        scan(s, from + 1, space)
    }
}

/// The first word of a text: its first run of characters that are not white
/// space, as long as it goes. A text of white space alone has no word.
pub open spec fn first_word_of(s: Seq<char>) -> Option<Seq<char>> {
    let start = scan(s, 0, false);
    if start < s.len() {
        Some(s.subrange(start, scan(s, start, true)))
    } else {
        None
    }
}

/// What stands in `s` before its first `c`; all of `s` if it holds no `c`.
pub open spec fn before_first(s: Seq<char>, c: char) -> Seq<char> {
    s.take(first_index_of(s, c))
}

/// A scan ends within the text, at or after the place where it began.
pub proof fn lemma_scan_bounds(s: Seq<char>, from: int, space: bool)
    requires
        0 <= from <= s.len(),
    ensures
        from <= scan(s, from, space) <= s.len(),
    decreases s.len() - from,
{
    if from < s.len() && is_space(s[from]) != space {
        lemma_scan_bounds(s, from + 1, space);
    }
}

/// The position that a scan of `chars` from `from` ends at.
fn scan_from(chars: &Vec<char>, from: usize, space: bool) -> (r: usize)
    requires
        from <= chars@.len(),
    ensures
        r == scan(chars@, from as int, space),
        from <= r <= chars@.len(),
{
    let mut i: usize = from;
    while i < chars.len() && is_whitespace(chars[i]) != space
        invariant
            from <= i <= chars@.len(),
            scan(chars@, from as int, space) == scan(chars@, i as int, space),
        decreases chars@.len() - i,
    {
        i += 1;
    }
    i
}

/// The first word of a text, if it has one.
pub fn first_word(text: &str) -> (r: Option<String>)
    ensures
        r.deep_view() == first_word_of(text@),
{
    let chars = chars(text);
    let start = scan_from(&chars, 0, false);
    if start < chars.len() {
        let end = scan_from(&chars, start, true);
        Some(text.substring_char(start, end).to_owned())
    } else {
        None
    }
}

/// What stands in `text` before its first `c`.
pub fn up_to(text: &str, c: char) -> (r: String)
    ensures
        r@ == before_first(text@, c),
{
    let chars = chars(text);
    let mut i: usize = 0;
    assert(chars@.skip(0) =~= chars@);
    while i < chars.len() && chars[i] != c
        invariant
            i <= chars@.len(),
            first_index_of(chars@, c) == i + first_index_of(chars@.skip(i as int), c),
        decreases chars@.len() - i,
    {
        assert(chars@.skip(i as int).drop_first() =~= chars@.skip(i + 1));
        i += 1;
    }
    text.substring_char(0, i).to_owned()
}

/// Whether `text` begins with `prefix`.
pub fn starts_with(text: &str, prefix: &str) -> (r: bool)
    ensures
        r == prefix@.is_prefix_of(text@),
{
    let t = chars(text);
    let p = chars(prefix);
    if p.len() > t.len() {
        return false;
    }
    let mut i: usize = 0;
    while i < p.len()
        invariant
            t@ == text@,
            p@ == prefix@,
            i <= p@.len() <= t@.len(),
            p@.take(i as int) =~= t@.take(i as int),
        decreases p@.len() - i,
    {
        if p[i] != t[i] {
            assert(p@[i as int] != t@.subrange(0, p@.len() as int)[i as int]);
            return false;
        }
        assert(p@.take(i + 1) =~= p@.take(i as int).push(p@[i as int]));
        assert(t@.take(i + 1) =~= t@.take(i as int).push(t@[i as int]));
        i += 1;
    }
    assert(p@.take(i as int) =~= p@);
    true
}

/// Whether `text` ends with `suffix`.
pub fn ends_with(text: &str, suffix: &str) -> (r: bool)
    ensures
        r == suffix@.is_suffix_of(text@),
{
    let t = chars(text);
    let s = chars(suffix);
    if s.len() > t.len() {
        return false;
    }
    let offset = t.len() - s.len();
    let ghost tail = t@.subrange(offset as int, t@.len() as int);
    let mut i: usize = 0;
    while i < s.len()
        invariant
            t@ == text@,
            s@ == suffix@,
            i <= s@.len() <= t@.len(),
            offset == t@.len() - s@.len(),
            t@.len() <= usize::MAX,
            tail == t@.subrange(offset as int, t@.len() as int),
            s@.take(i as int) =~= tail.take(i as int),
        decreases s@.len() - i,
    {
        if s[i] != t[offset + i] {
            assert(s@[i as int] != tail[i as int]);
            return false;
        }
        assert(s@.take(i + 1) =~= s@.take(i as int).push(s@[i as int]));
        assert(tail.take(i + 1) =~= tail.take(i as int).push(tail[i as int]));
        i += 1;
    }
    assert(s@.take(i as int) =~= s@);
    assert(tail.take(i as int) =~= tail);
    true
}

/// Whether two texts are the same.
pub fn equal(a: &str, b: &str) -> (r: bool)
    ensures
        r == (a@ == b@),
{
    let r = starts_with(a, b) && starts_with(b, a);
    proof {
        if r {
            assert(a@ =~= b@);
        }
    }
    r
}

/// `text` without its first `n` characters; nothing is left where it has no more.
pub fn skip(text: &str, n: usize) -> (r: String)
    ensures
        r@ == (if n <= text@.len() {
            text@.skip(n as int)
        } else {
            Seq::empty()
        }),
{
    let len = text.unicode_len();
    if n <= len {
        text.substring_char(n, len).to_owned()
    } else {
        String::new()
    }
}

} // verus!
