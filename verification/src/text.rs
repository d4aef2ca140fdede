//! Small operations on text that the request handling needs: blank input, and
//! the token inside an `Authorization` header.

use crate::encoding::push_char;
use vstd::prelude::*;
use vstd::string::*;

verus! {

/// The scheme word, with its space, that an `Authorization` header starts with.
pub const BEARER: &'static str = "Bearer ";

/// The characters of an optional string.
pub open spec fn text_of(s: Option<String>) -> Option<Seq<char>> {
    match s {
        Some(s) => Some(s@),
        None => None,
    }
}

/// The characters of an optional string slice.
pub open spec fn text_of_str(s: Option<&str>) -> Option<Seq<char>> {
    match s {
        Some(s) => Some(s@),
        None => None,
    }
}

/// The characters with the Unicode property `White_Space`.
pub open spec fn is_whitespace(c: char) -> bool {
    let n = c as u32;
    ||| 0x09 <= n <= 0x0D
    ||| n == 0x20
    ||| n == 0x85
    ||| n == 0xA0
    ||| n == 0x1680
    ||| 0x2000 <= n <= 0x200A
    ||| n == 0x2028
    ||| n == 0x2029
    ||| n == 0x202F
    ||| n == 0x205F
    ||| n == 0x3000
}

/// A text of nothing but whitespace.
pub open spec fn blank(text: Seq<char>) -> bool {
    forall|i: int| 0 <= i < text.len() ==> is_whitespace(#[trigger] text[i])
}

/// `text` without every leading repetition of `prefix`.
pub open spec fn strip_all(text: Seq<char>, prefix: Seq<char>) -> Seq<char>
    decreases text.len(),
{
    if prefix.len() > 0 && prefix.is_prefix_of(text) {
        strip_all(text.skip(prefix.len() as int), prefix)
    } else {
        text
    }
}

/// `text` without its leading whitespace.
pub open spec fn trim_start(text: Seq<char>) -> Seq<char>
    decreases text.len(),
{
    if text.len() > 0 && is_whitespace(text.first()) {
        trim_start(text.drop_first())
    } else {
        text
    }
}

/// `text` without its trailing whitespace.
pub open spec fn trim_end(text: Seq<char>) -> Seq<char>
    decreases text.len(),
{
    if text.len() > 0 && is_whitespace(text.last()) {
        trim_end(text.drop_last())
    } else {
        text
    }
}

/// `text` without the whitespace at either end.
pub open spec fn trimmed(text: Seq<char>) -> Seq<char> {
    trim_end(trim_start(text))
}

/// The token that an `Authorization` header carries: what follows the scheme
/// word, however often it is repeated, without the whitespace around it. A
/// header that does not start with the scheme word carries none.
pub open spec fn bearer(header: Seq<char>) -> Option<Seq<char>> {
    if BEARER@.is_prefix_of(header) {
        Some(trimmed(strip_all(header, BEARER@)))
    } else {
        None
    }
}

/// Whether two texts are the same.
pub fn same_text(a: &str, b: &str) -> (res: bool)
    ensures
        res == (a@ == b@),
{
    a.to_owned() == b.to_owned()
}

/// A header made of the scheme word and a token carries that token, where the
/// token neither starts with the scheme word's first letter nor starts or ends
/// with whitespace.
pub proof fn lemma_bearer_carries(token: Seq<char>)
    requires
        token.len() > 0,
        token.first() != 'B',
        !is_whitespace(token.first()),
        !is_whitespace(token.last()),
    ensures
        bearer(BEARER@ + token) == Some(token),
{
    reveal_strlit("Bearer ");
    let header = BEARER@ + token;
    assert(header.subrange(0, BEARER@.len() as int) =~= BEARER@);
    assert(header.skip(BEARER@.len() as int) =~= token);
    assert(!BEARER@.is_prefix_of(token)) by {
        if BEARER@.is_prefix_of(token) {
            assert(token[0] == BEARER@[0]);
        }
    }
    assert(strip_all(token, BEARER@) == token);
    assert(strip_all(header, BEARER@) == token);
    assert(trim_start(token) == token);
    assert(trim_end(token) == token);
}

/// The characters of `text`.
pub fn chars_of(text: &str) -> (res: Vec<char>)
    ensures
        res@ == text@,
{
    let mut out: Vec<char> = Vec::new();
    for c in it: text.chars()
        invariant
            out@.len() == it.index(),
            forall|i: int| 0 <= i < out@.len() ==> out@[i] == it.seq()[i],
            it.seq() == text@,
    {
        out.push(c);
    }
    assert(out@ =~= text@);
    out
}

/// Whether `c` is whitespace.
pub fn whitespace(c: char) -> (res: bool)
    ensures
        res == is_whitespace(c),
{
    let n: u32 = c as u32;
    (0x09 <= n && n <= 0x0D) || n == 0x20 || n == 0x85 || n == 0xA0 || n == 0x1680 || (0x2000 <= n
        && n <= 0x200A) || n == 0x2028 || n == 0x2029 || n == 0x202F || n == 0x205F || n == 0x3000
}

/// Whether `text` is empty or holds nothing but whitespace.
pub fn is_blank(text: &str) -> (res: bool)
    ensures
        res == blank(text@),
{
    let chars = chars_of(text);
    let mut i: usize = 0;
    while i < chars.len()
        invariant
            i <= chars.len(),
            chars@ == text@,
            forall|j: int| 0 <= j < i ==> is_whitespace(#[trigger] chars@[j]),
        decreases chars.len() - i,
    {
        if !whitespace(chars[i]) {
            assert(!is_whitespace(text@[i as int]));
            return false;
        }
        i += 1;
    }
    true
}

/// Whether `prefix` stands in `text` at the position `at`.
fn stands_at(text: &Vec<char>, at: usize, prefix: &Vec<char>) -> (res: bool)
    requires
        at <= text.len(),
    ensures
        res == prefix@.is_prefix_of(text@.skip(at as int)),
{
    if prefix.len() > text.len() - at {
        return false;
    }
    let mut i: usize = 0;
    while i < prefix.len()
        invariant
            i <= prefix.len(),
            at <= text.len(),
            prefix.len() <= text.len() - at,
            forall|j: int| 0 <= j < i ==> prefix@[j] == text@[at + j],
        decreases prefix.len() - i,
    {
        if prefix[i] != text[at + i] {
            assert(text@.skip(at as int)[i as int] == text@[at + i]);
            return false;
        }
        i += 1;
    }
    assert(prefix@ =~= text@.skip(at as int).subrange(0, prefix@.len() as int));
    true
}

/// Reads the token out of an `Authorization` header.
pub fn bearer_token(header: &str) -> (res: Option<String>)
    ensures
        res is Some <==> bearer(header@) is Some,
        res matches Some(token) ==> bearer(header@) == Some(token@),
{
    let text = chars_of(header);
    let prefix = chars_of(BEARER);
    proof {
        reveal_strlit("Bearer ");
        assert(text@.skip(0) =~= text@);
    }
    if !stands_at(&text, 0, &prefix) {
        return None;
    }
    let mut start: usize = 0;
    while stands_at(&text, start, &prefix)
        invariant
            start <= text.len(),
            prefix@.len() == 7,
            strip_all(text@, prefix@) == strip_all(text@.skip(start as int), prefix@),
        decreases text.len() - start,
    {
        assert(text@.skip(start as int).skip(prefix@.len() as int) =~= text@.skip(
            start + prefix@.len(),
        ));
        start += prefix.len();
    }
    let ghost stripped = text@.skip(start as int);
    assert(strip_all(text@, prefix@) == stripped);
    while start < text.len() && whitespace(text[start])
        invariant
            start <= text.len(),
            trim_start(stripped) == trim_start(text@.skip(start as int)),
        decreases text.len() - start,
    {
        assert(text@.skip(start as int).drop_first() =~= text@.skip(start + 1));
        start += 1;
    }
    let ghost left = text@.skip(start as int);
    assert(trim_start(stripped) == left);
    let mut end: usize = text.len();
    assert(text@.subrange(start as int, end as int) =~= left);
    while end > start && whitespace(text[end - 1])
        invariant
            start <= end <= text.len(),
            trim_end(left) == trim_end(text@.subrange(start as int, end as int)),
        decreases end - start,
    {
        assert(text@.subrange(start as int, end as int).drop_last() =~= text@.subrange(
            start as int,
            end - 1,
        ));
        end -= 1;
    }
    let ghost token = text@.subrange(start as int, end as int);
    assert(trim_end(left) == token);
    let mut out = String::new();
    let mut i: usize = start;
    while i < end
        invariant
            start <= i <= end <= text.len(),
            out@ == text@.subrange(start as int, i as int),
        decreases end - i,
    {
        push_char(&mut out, text[i]);
        assert(text@.subrange(start as int, i + 1) =~= text@.subrange(start as int, i as int).push(
            text@[i as int],
        ));
        i += 1;
    }
    Some(out)
}

} // verus!
