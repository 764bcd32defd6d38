//! Text decoding and comparison helpers.
//!
//! Names in an evtc file are byte arrays that are expected to hold UTF-8. The decoding itself is
//! done by the standard library; `vstd::utf8` states what a valid encoding is and what it
//! decodes to.
use std::str::Utf8Error;
use std::string::FromUtf8Error;
use vstd::prelude::*;
use vstd::utf8::*;

verus! {

#[verifier::external_type_specification]
#[verifier::external_body]
pub struct ExUtf8Error(Utf8Error);

#[verifier::external_type_specification]
#[verifier::external_body]
pub struct ExFromUtf8Error(FromUtf8Error);

/// What `String::from_utf8_lossy` returns for `bytes`: each maximal invalid sequence replaced by
/// U+FFFD.
pub uninterp spec fn utf8_lossy(bytes: Seq<u8>) -> Seq<char>;

/// What `str::to_lowercase` returns for `s`: the Unicode lowercase mapping of each character.
pub uninterp spec fn lowercase(s: Seq<char>) -> Seq<char>;

/// `std::str::from_utf8`: succeeds exactly on valid UTF-8, and the string then holds the decoded
/// characters.
#[verifier::external_body]
pub(crate) fn str_from_utf8(v: &[u8]) -> (r: Result<&str, Utf8Error>)
    ensures
        r is Ok <==> valid_utf8(v@),
        r matches Ok(s) ==> s@ == decode_utf8(v@),
{
    std::str::from_utf8(v)
}

/// `String::from_utf8`: succeeds exactly on valid UTF-8, and the string then holds the decoded
/// characters.
#[verifier::external_body]
pub(crate) fn string_from_utf8(v: Vec<u8>) -> (r: Result<String, FromUtf8Error>)
    ensures
        r is Ok <==> valid_utf8(v@),
        r matches Ok(s) ==> s@ == decode_utf8(v@),
{
    String::from_utf8(v)
}

/// `String::from_utf8_lossy`, made owned. Its result is named `utf8_lossy`; on valid UTF-8 it is
/// the decoded text. Which replacement characters it chooses for invalid input is left to the
/// name.
#[verifier::external_body]
pub(crate) fn string_from_utf8_lossy(v: &[u8]) -> (r: String)
    ensures
        r@ == utf8_lossy(v@),
        valid_utf8(v@) ==> r@ == decode_utf8(v@),
{
    String::from_utf8_lossy(v).into_owned()
}

/// The character is ASCII.
pub open spec fn is_ascii_char(c: char) -> bool {
    (c as u32) < 128
}

/// ASCII lowercasing: each of `A` to `Z` becomes its lowercase letter, every other character stays.
pub open spec fn ascii_lower(s: Seq<char>) -> Seq<char> {
    Seq::new(
        s.len(),
        |i: int|
            if 65 <= (s[i] as u32) <= 90 {
                ((s[i] as u32) + 32) as char
            } else {
                s[i]
            },
    )
}

/// Every character of the text is ASCII.
pub open spec fn is_ascii_text(s: Seq<char>) -> bool {
    forall|i: int| 0 <= i < s.len() ==> is_ascii_char(#[trigger] s[i])
}

/// ASCII uppercasing: each of `a` to `z` becomes its uppercase letter, every other character stays.
pub open spec fn ascii_upper(s: Seq<char>) -> Seq<char> {
    Seq::new(
        s.len(),
        |i: int|
            if 97 <= (s[i] as u32) <= 122 {
                ((s[i] as u32) - 32) as char
            } else {
                s[i]
            },
    )
}

/// Lowercasing text in capitals gives the lowercased text: case does not matter to it. Both keep
/// ASCII text ASCII.
pub proof fn lemma_lower_of_upper(s: Seq<char>)
    ensures
        ascii_lower(ascii_upper(s)) == ascii_lower(s),
        is_ascii_text(s) ==> is_ascii_text(ascii_upper(s)),
        is_ascii_text(s) ==> is_ascii_text(ascii_lower(s)),
{
    let u = ascii_upper(s);
    assert forall|i: int| 0 <= i < s.len() implies #[trigger] ascii_lower(u)[i] == ascii_lower(s)[i] by {
        let c = s[i] as u32;
        if 97 <= c <= 122 {
            assert(u[i] == ((c - 32) as char));
            assert(((c - 32) as char) as u32 == c - 32);
            assert(ascii_lower(u)[i] == ((c - 32 + 32) as char));
            vstd::utf8::char_u32_cast(s[i], c);
        } else {
            assert(u[i] == s[i]);
        }
    }
    assert(ascii_lower(u) =~= ascii_lower(s));
    if is_ascii_text(s) {
        assert forall|i: int| 0 <= i < u.len() implies is_ascii_char(#[trigger] u[i]) by {
            assert(is_ascii_char(s[i]));
        }
        assert forall|i: int| 0 <= i < s.len() implies is_ascii_char(#[trigger] ascii_lower(s)[i]) by {
            assert(is_ascii_char(s[i]));
        }
    }
}

/// `str::to_lowercase`. Its result is named `lowercase`, a function of the input alone. Of it,
/// only what the documentation of `char::to_lowercase` gives for ASCII text is stated: each ASCII
/// character maps to its ASCII lowercase form, so ASCII text is lowercased letter by letter.
#[verifier::external_body]
pub(crate) fn to_lowercase(s: &str) -> (r: String)
    ensures
        r@ == lowercase(s@),
        is_ascii_text(s@) ==> r@ == ascii_lower(s@),
{
    s.to_lowercase()
}

/// `String::from_iter` over characters: the string holding exactly these characters.
#[verifier::external_body]
pub(crate) fn string_from_chars(v: Vec<char>) -> (r: String)
    ensures
        r@ == v@,
{
    String::from_iter(v)
}

/// Compares two strings character by character.
pub fn str_eq(a: &str, b: &str) -> (r: bool)
    ensures
        r == (a@ == b@),
{
    let ab = a.as_bytes();
    let bb = b.as_bytes();
    proof {
        encode_utf8_decode_utf8(a@);
        encode_utf8_decode_utf8(b@);
    }
    if ab.len() != bb.len() {
        return false;
    }
    let mut i: usize = 0;
    while i < ab.len()
        invariant
            ab@.len() == bb@.len(),
            ab@ == encode_utf8(a@),
            bb@ == encode_utf8(b@),
            i <= ab@.len(),
            forall|j: int| 0 <= j < i ==> ab@[j] == bb@[j],
        decreases ab@.len() - i,
    {
        if ab[i] != bb[i] {
            return false;
        }
        i = i + 1;
    }
    assert(ab@ =~= bb@);
    true
}

} // verus!
