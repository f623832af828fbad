//! Text helpers: searching, comparing and trimming over the characters of a
//! string, and the few conversions that are the standard library's own.

use vstd::prelude::*;
use vstd::utf8::{decode_utf8, valid_utf8};

verus! {

/// Whether `c` is whitespace: a character with the Unicode property
/// `White_Space`. These are the tab, the line feed, the vertical tab, the form
/// feed, the carriage return, the space, the next-line control, the no-break
/// space, the Ogham space mark, the spaces from the en quad to the hair space,
/// the line and the paragraph separator, the narrow no-break space, the medium
/// mathematical space and the ideographic space.
pub open spec fn is_whitespace(c: char) -> bool {
    ||| 0x09 <= c as u32 <= 0x0D
    ||| c as u32 == 0x20
    ||| c as u32 == 0x85
    ||| c as u32 == 0xA0
    ||| c as u32 == 0x1680
    ||| 0x2000 <= c as u32 <= 0x200A
    ||| c as u32 == 0x2028
    ||| c as u32 == 0x2029
    ||| c as u32 == 0x202F
    ||| c as u32 == 0x205F
    ||| c as u32 == 0x3000
}

/// The upper-case form of `text` under the Unicode case mapping of
/// `str::to_uppercase`.
pub uninterp spec fn uppercased(text: Seq<char>) -> Seq<char>;

/// The text that `String::from_utf8_lossy` reads from `bytes`: each ill-formed
/// part stands as U+FFFD.
pub uninterp spec fn utf8_lossy(bytes: Seq<u8>) -> Seq<char>;

/// The first position at or after `from` where `text` holds a character that
/// is no whitespace, or the length of `text` where there is none.
pub open spec fn content_start(text: Seq<char>, from: int) -> int
    decreases text.len() - from,
{
    if from < 0 || from >= text.len() {
        text.len() as int
    } else if !is_whitespace(text[from]) {
        from
    } else {
        content_start(text, from + 1)
    }
}

/// The position behind the last character before `to` that is no whitespace,
/// or 0 where there is none.
pub open spec fn content_end(text: Seq<char>, to: int) -> int
    decreases to,
{
    if to <= 0 || to > text.len() {
        0
    } else if !is_whitespace(text[to - 1]) {
        to
    } else {
        content_end(text, to - 1)
    }
}

/// The first position at or after `from` where `text` holds whitespace, or
/// the length of `text` where there is none: where the token ends that begins
/// at `from`.
pub open spec fn token_end(text: Seq<char>, from: int) -> int
    decreases text.len() - from,
{
    if from < 0 || from >= text.len() {
        text.len() as int
    } else if is_whitespace(text[from]) {
        from
    } else {
        token_end(text, from + 1)
    }
}

/// `text` without the whitespace at its front and at its back.
pub open spec fn trimmed(text: Seq<char>) -> Seq<char> {
    if content_start(text, 0) >= content_end(text, text.len() as int) {
        Seq::empty()
    } else {
        text.subrange(content_start(text, 0), content_end(text, text.len() as int))
    }
}

/// The lower-case form of an ASCII capital, and every other character itself.
pub open spec fn ascii_lower(c: char) -> char {
    if 'A' <= c && c <= 'Z' {
        ((c as u8 + 32) as u8) as char
    } else {
        c
    }
}

/// Whether `a` and `b` are equal up to the case of their ASCII letters.
pub open spec fn eq_ignoring_ascii_case(a: Seq<char>, b: Seq<char>) -> bool {
    a.len() == b.len() && forall|i: int| 0 <= i < a.len() ==> ascii_lower(a[i]) == ascii_lower(b[i])
}

/// Whether `needle` occurs in `hay` as a run of neighbouring characters.
pub open spec fn contains_text(hay: Seq<char>, needle: Seq<char>) -> bool {
    exists|i: int| occurs_at(hay, needle, i)
}

/// Whether `needle` stands in `hay` at position `i`.
pub open spec fn occurs_at(hay: Seq<char>, needle: Seq<char>, i: int) -> bool {
    0 <= i && i + needle.len() <= hay.len() && hay.subrange(i, i + needle.len()) == needle
}

/// The texts of a run of strings, in order.
pub open spec fn texts(strings: Seq<String>) -> Seq<Seq<char>> {
    Seq::new(strings.len(), |i: int| strings[i]@)
}

/// `str::to_uppercase`: the upper-case form, named [`uppercased`].
#[verifier::external_body]
pub(crate) fn uppercase_text(text: &str) -> (r: String)
    ensures
        r@ == uppercased(text@),
{
    text.to_uppercase()
}

/// `std::str::from_utf8`: the text that well-formed UTF-8 encodes, and `None`
/// for bytes that are not well-formed UTF-8.
#[verifier::external_body]
pub(crate) fn utf8_text(bytes: &[u8]) -> (r: Option<&str>)
    ensures
        r is Some <==> valid_utf8(bytes@),
        r is Some ==> r.unwrap()@ == decode_utf8(bytes@),
{
    std::str::from_utf8(bytes).ok()
}

/// `String::from_utf8_lossy`: the text named [`utf8_lossy`], which for
/// well-formed UTF-8 is the text that the bytes encode.
#[verifier::external_body]
pub(crate) fn utf8_text_lossy(bytes: &[u8]) -> (r: String)
    ensures
        r@ == utf8_lossy(bytes@),
        valid_utf8(bytes@) ==> r@ == decode_utf8(bytes@),
{
    String::from_utf8_lossy(bytes).into_owned()
}

/// Whether `c` is whitespace.
pub fn char_is_whitespace(c: char) -> (r: bool)
    ensures
        r == is_whitespace(c),
{
    let n: u32 = c as u32;
    (0x09 <= n && n <= 0x0D) || n == 0x20 || n == 0x85 || n == 0xA0 || n == 0x1680 || (0x2000 <= n
        && n <= 0x200A) || n == 0x2028 || n == 0x2029 || n == 0x202F || n == 0x205F || n == 0x3000
}

/// The first position at or after `from` where `text` holds no whitespace, or
/// the length of `text` where there is none.
pub fn skip_whitespace(text: &Vec<char>, from: usize) -> (r: usize)
    ensures
        r == content_start(text@, from as int),
        from <= text.len() ==> from <= r <= text.len(),
{
    if from >= text.len() {
        return text.len();
    }
    let mut i: usize = from;
    while i < text.len() && char_is_whitespace(text[i])
        invariant
            from <= i <= text.len(),
            content_start(text@, from as int) == content_start(text@, i as int),
        decreases text.len() - i,
    {
        i += 1;
    }
    i
}

/// The first position at or after `from` where `text` holds whitespace, or
/// the length of `text` where there is none.
pub fn skip_token(text: &Vec<char>, from: usize) -> (r: usize)
    ensures
        r == token_end(text@, from as int),
        from <= text.len() ==> from <= r <= text.len(),
{
    if from >= text.len() {
        return text.len();
    }
    let mut i: usize = from;
    while i < text.len() && !char_is_whitespace(text[i])
        invariant
            from <= i <= text.len(),
            token_end(text@, from as int) == token_end(text@, i as int),
        decreases text.len() - i,
    {
        i += 1;
    }
    i
}

/// Whether `a` and `b` are the same text.
pub fn same_text(a: &str, b: &str) -> (r: bool)
    ensures
        r == (a@ == b@),
{
    let left = chars_of(a);
    let right = chars_of(b);
    if left.len() != right.len() {
        return false;
    }
    let mut i: usize = 0;
    while i < left.len()
        invariant
            left@ == a@,
            right@ == b@,
            left.len() == right.len(),
            i <= left.len(),
            forall|k: int| 0 <= k < i ==> a@[k] == b@[k],
        decreases left.len() - i,
    {
        if left[i] != right[i] {
            return false;
        }
        i += 1;
    }
    proof {
        assert(a@ =~= b@);
    }
    true
}

/// The characters of `text`, in order.
pub fn chars_of(text: &str) -> (r: Vec<char>)
    ensures
        r@ == text@,
{
    let mut out: Vec<char> = Vec::new();
    for c in it: text.chars()
        invariant
            it.seq() == text@,
            out@ == it.seq().take(it.index()),
    {
        out.push(c);
    }
    out
}

/// The lower-case form of an ASCII capital, and every other character itself.
pub fn to_ascii_lower(c: char) -> (r: char)
    ensures
        r == ascii_lower(c),
{
    if 'A' <= c && c <= 'Z' {
        let b: u8 = c as u8;
        (b + 32) as char
    } else {
        c
    }
}

/// Whether `a` and `b` are equal up to the case of their ASCII letters.
pub fn eq_ignore_ascii_case(a: &str, b: &str) -> (r: bool)
    ensures
        r == eq_ignoring_ascii_case(a@, b@),
{
    let left = chars_of(a);
    let right = chars_of(b);
    if left.len() != right.len() {
        return false;
    }
    let mut i: usize = 0;
    while i < left.len()
        invariant
            left@ == a@,
            right@ == b@,
            left.len() == right.len(),
            i <= left.len(),
            forall|k: int| 0 <= k < i ==> ascii_lower(a@[k]) == ascii_lower(b@[k]),
        decreases left.len() - i,
    {
        if to_ascii_lower(left[i]) != to_ascii_lower(right[i]) {
            return false;
        }
        i += 1;
    }
    true
}

/// `text` without the whitespace at its front and at its back.
pub fn trim(text: &str) -> (r: &str)
    ensures
        r@ == trimmed(text@),
{
    let chars = chars_of(text);
    let mut start: usize = 0;
    while start < chars.len() && char_is_whitespace(chars[start])
        invariant
            start <= chars.len(),
            content_start(chars@, 0) == content_start(chars@, start as int),
        decreases chars.len() - start,
    {
        start += 1;
    }
    let mut end: usize = chars.len();
    while end > 0 && char_is_whitespace(chars[end - 1])
        invariant
            end <= chars.len(),
            content_end(chars@, chars.len() as int) == content_end(chars@, end as int),
        decreases end,
    {
        end -= 1;
    }
    if start >= end {
        proof {
            reveal_strlit("");
        }
        ""
    } else {
        text.substring_char(start, end)
    }
}

/// Whether `needle` stands in `hay` at position `at`.
fn matches_at(hay: &Vec<char>, needle: &Vec<char>, at: usize) -> (r: bool)
    requires
        at + needle.len() <= hay.len(),
    ensures
        r == occurs_at(hay@, needle@, at as int),
{
    let mut k: usize = 0;
    while k < needle.len()
        invariant
            k <= needle.len(),
            at + needle.len() <= hay.len(),
            forall|j: int| 0 <= j < k ==> hay@[at + j] == needle@[j],
        decreases needle.len() - k,
    {
        if hay[at + k] != needle[k] {
            proof {
                assert(hay@.subrange(at as int, at + needle.len())[k as int] == hay@[at + k]);
            }
            return false;
        }
        k += 1;
    }
    proof {
        assert(hay@.subrange(at as int, at + needle.len()) =~= needle@);
    }
    true
}

/// Whether `needle` occurs in `hay`.
pub fn contains(hay: &str, needle: &str) -> (r: bool)
    ensures
        r == contains_text(hay@, needle@),
{
    let h = chars_of(hay);
    let n = chars_of(needle);
    if n.len() > h.len() {
        return false;
    }
    if n.len() == 0 {
        proof {
            assert(hay@.subrange(0, 0) =~= needle@);
            assert(occurs_at(hay@, needle@, 0));
        }
        return true;
    }
    let last: usize = h.len() - n.len();
    let mut i: usize = 0;
    while i <= last
        invariant
            h@ == hay@,
            n@ == needle@,
            last + n.len() == h.len(),
            n.len() > 0,
            i <= last + 1,
            forall|j: int| 0 <= j < i ==> !occurs_at(hay@, needle@, j),
        decreases last + 1 - i,
    {
        if matches_at(&h, &n, i) {
            return true;
        }
        i += 1;
    }
    false
}

} // verus!
