//! Text forms of binary values: base64 for stored envelopes and keys,
//! lowercase hexadecimal for digests, and the identifiers of stored records.

use crate::text::chars_of;
use base64::engine::general_purpose::STANDARD;
use base64::Engine;
use vstd::prelude::*;
use vstd::utf8::*;

verus! {

/// The standard base64 text, with padding, of `bytes`.
pub uninterp spec fn base64_text(bytes: Seq<u8>) -> Seq<char>;

/// The bytes that standard base64 `text` stands for, or `None` where `text` is
/// not base64.
pub uninterp spec fn base64_bytes(text: Seq<char>) -> Option<Seq<u8>>;

/// `bytes` read as UTF-8, with each invalid sequence replaced by U+FFFD.
pub uninterp spec fn utf8_lossy(bytes: Seq<u8>) -> Seq<char>;

/// A length whose base64 text fits into memory.
pub open spec fn base64_fits(len: int) -> bool {
    len <= (isize::MAX / 4) * 3
}

/// The number of characters of the base64 text of `len` bytes: four for every
/// three bytes begun.
pub open spec fn base64_len(len: int) -> int {
    4 * ((len + 2) / 3)
}

/// One of the characters `0-9`, `a-f`, `A-F`.
pub open spec fn is_hex_char(c: char) -> bool {
    ||| '0' <= c <= '9'
    ||| 'a' <= c <= 'f'
    ||| 'A' <= c <= 'F'
}

/// The identifiers of stored records: 24 hexadecimal characters.
pub open spec fn is_object_id(id: Seq<char>) -> bool {
    &&& id.len() == 24
    &&& forall|i: int| 0 <= i < id.len() ==> is_hex_char(#[trigger] id[i])
}

/// A hexadecimal letter in lower case; any other character as it is.
pub open spec fn lower_hex(c: char) -> char {
    if 'A' <= c <= 'F' {
        ((c as u8) + 32) as char
    } else {
        c
    }
}

/// An identifier with its hexadecimal letters in lower case, as the store
/// writes it.
pub open spec fn canonical_id(id: Seq<char>) -> Seq<char> {
    id.map_values(|c: char| lower_hex(c))
}

/// Two identifiers name the same record: they differ at most in the case of
/// their hexadecimal letters.
pub open spec fn same_id(a: Seq<char>, b: Seq<char>) -> bool {
    canonical_id(a) == canonical_id(b)
}

/// The lowercase hexadecimal digit of a value below 16.
pub open spec fn hex_digit(n: u8) -> char {
    if n < 10 {
        (48 + n) as char
    } else {
        (87 + n) as char
    }
}

/// Two lowercase hexadecimal digits for each byte, the high one first.
pub open spec fn hex_lower(bytes: Seq<u8>) -> Seq<char> {
    Seq::new(
        2 * bytes.len(),
        |i: int|
            if i % 2 == 0 {
                hex_digit(bytes[i / 2] / 16)
            } else {
                hex_digit(bytes[i / 2] % 16)
            },
    )
}

/// Calls `STANDARD.encode` of the `base64` crate. The text depends on the
/// bytes alone, has four characters for every three bytes begun, and
/// `STANDARD.decode` gives the bytes back.
#[verifier::external_body]
pub(crate) fn base64_encode(bytes: &[u8]) -> (res: String)
    requires
        base64_fits(bytes@.len() as int),
    ensures
        res@ == base64_text(bytes@),
        res@.len() == base64_len(bytes@.len() as int),
        base64_bytes(res@) == Some(bytes@),
{
    STANDARD.encode(bytes)
}

/// Calls `STANDARD.decode` of the `base64` crate. It fails exactly where the
/// text is not standard base64.
#[verifier::external_body]
pub(crate) fn base64_decode(text: &str) -> (res: Result<Vec<u8>, String>)
    ensures
        res is Ok <==> base64_bytes(text@) is Some,
        res matches Ok(bytes) ==> base64_bytes(text@) == Some(bytes@),
{
    STANDARD.decode(text).map_err(|e| e.to_string())
}

/// Calls `String::from_utf8_lossy`. Valid UTF-8 is decoded as it stands.
#[verifier::external_body]
pub(crate) fn lossy_text(bytes: &[u8]) -> (res: String)
    ensures
        res@ == utf8_lossy(bytes@),
        valid_utf8(bytes@) ==> res@ == decode_utf8(bytes@),
{
    String::from_utf8_lossy(bytes).into_owned()
}

/// Calls `String::push`, which appends one character.
#[verifier::external_body]
pub(crate) fn push_char(text: &mut String, c: char)
    ensures
        final(text)@ == old(text)@.push(c),
{
    text.push(c)
}

/// The lowercase hexadecimal digit of `n`.
fn hex_digit_of(n: u8) -> (c: char)
    requires
        n < 16,
    ensures
        c == hex_digit(n),
{
    if n < 10 {
        (48 + n) as char
    } else {
        (87 + n) as char
    }
}

/// Writes `bytes` in lowercase hexadecimal.
pub fn to_hex_lower(bytes: &[u8]) -> (res: String)
    ensures
        res@ == hex_lower(bytes@),
        res@.len() == 2 * bytes@.len(),
{
    let mut out = String::new();
    let mut i: usize = 0;
    while i < bytes.len()
        invariant
            i <= bytes.len(),
            out@.len() == 2 * i,
            forall|j: int| 0 <= j < out@.len() ==> out@[j] == hex_lower(bytes@)[j],
        decreases bytes.len() - i,
    {
        let b: u8 = bytes[i];
        push_char(&mut out, hex_digit_of(b / 16));
        push_char(&mut out, hex_digit_of(b % 16));
        i += 1;
    }
    assert(out@ =~= hex_lower(bytes@));
    out
}

/// A hexadecimal letter in lower case; any other character as it is.
fn to_lower_hex(c: char) -> (res: char)
    ensures
        res == lower_hex(c),
{
    if 'A' <= c && c <= 'F' {
        ((c as u8) + 32) as char
    } else {
        c
    }
}

/// Whether two identifiers name the same record.
pub fn same_object_id(a: &str, b: &str) -> (res: bool)
    ensures
        res == same_id(a@, b@),
{
    let left = chars_of(a);
    let right = chars_of(b);
    if left.len() != right.len() {
        assert(canonical_id(a@).len() != canonical_id(b@).len());
        return false;
    }
    let mut i: usize = 0;
    while i < left.len()
        invariant
            i <= left.len(),
            left.len() == right.len(),
            left@ == a@,
            right@ == b@,
            forall|j: int| 0 <= j < i ==> lower_hex(left@[j]) == lower_hex(right@[j]),
        decreases left.len() - i,
    {
        if to_lower_hex(left[i]) != to_lower_hex(right[i]) {
            assert(canonical_id(a@)[i as int] != canonical_id(b@)[i as int]);
            return false;
        }
        i += 1;
    }
    assert(canonical_id(a@) =~= canonical_id(b@));
    true
}

/// Whether `c` is one of the characters `0-9`, `a-f`, `A-F`.
fn hex_char(c: char) -> (res: bool)
    ensures
        res == is_hex_char(c),
{
    ('0' <= c && c <= '9') || ('a' <= c && c <= 'f') || ('A' <= c && c <= 'F')
}

/// Whether `id` can name a stored record: whether it is one of the texts that
/// the store's driver reads as an identifier.
pub fn valid_object_id(id: &str) -> (res: bool)
    ensures
        res == is_object_id(id@),
{
    let chars = chars_of(id);
    if chars.len() != 24 {
        return false;
    }
    let mut i: usize = 0;
    while i < chars.len()
        invariant
            i <= chars.len(),
            chars@ == id@,
            forall|j: int| 0 <= j < i ==> is_hex_char(#[trigger] chars@[j]),
        decreases chars.len() - i,
    {
        if !hex_char(chars[i]) {
            assert(!is_hex_char(id@[i as int]));
            return false;
        }
        i += 1;
    }
    true
}

} // verus!
