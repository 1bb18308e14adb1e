//! Checks on user-supplied text.

use vstd::prelude::*;
use vstd::utf8::encode_utf8;

verus! {

/// Number of bytes a text occupies in UTF-8.
pub open spec fn byte_len(text: Seq<char>) -> nat {
    encode_utf8(text).len()
}

/// Length of `text` in bytes.
pub fn text_byte_len(text: &str) -> (n: usize)
    ensures
        n == byte_len(text@),
{
    text.as_bytes().len()
}

/// Whether a character is alphabetic or numeric in the sense of Unicode.
pub uninterp spec fn unicode_alphanumeric(c: char) -> bool;

/// `char::is_alphanumeric` of the standard library: true exactly for the
/// characters that Unicode classes as alphabetic or numeric. The class is
/// not spelled out here; the result is taken to be a fixed function of the
/// character.
#[verifier::external_body]
fn is_alphanumeric(c: char) -> (r: bool)
    ensures
        r == unicode_alphanumeric(c),
{
    c.is_alphanumeric()
}

/// A text without the white space at its two ends.
pub uninterp spec fn trimmed_text(text: Seq<char>) -> Seq<char>;

/// `str::trim` of the standard library: the text without leading and
/// trailing white space, white space being what Unicode's `White_Space`
/// property says. The property is not spelled out here; the result is
/// taken to be a fixed function of the text.
#[verifier::external_body]
pub(crate) fn trim(text: &str) -> (r: &str)
    ensures
        r@ == trimmed_text(text@),
{
    text.trim()
}

/// Characters a profile name may hold: letters, digits and the underscore.
pub open spec fn profile_name_char(c: char) -> bool {
    unicode_alphanumeric(c) || c == '_'
}

/// Characters a minted username may hold: letters, digits, underscore,
/// hyphen and full stop.
pub open spec fn minted_name_char(c: char) -> bool {
    unicode_alphanumeric(c) || c == '_' || c == '-' || c == '.'
}

/// Whether a character may stand in a profile name, given whether it is
/// alphanumeric.
pub fn profile_name_allows(c: char, alphanumeric: bool) -> (r: bool)
    ensures
        r == (alphanumeric || c == '_'),
{
    alphanumeric || c == '_'
}

/// Whether a character may stand in a minted username, given whether it is
/// alphanumeric.
pub fn minted_name_allows(c: char, alphanumeric: bool) -> (r: bool)
    ensures
        r == (alphanumeric || c == '_' || c == '-' || c == '.'),
{
    alphanumeric || c == '_' || c == '-' || c == '.'
}

/// Whether every character of `name` may stand in a profile name.
pub fn is_profile_name(name: &str) -> (r: bool)
    ensures
        r == (forall|i: int| 0 <= i < name@.len() ==> profile_name_char(#[trigger] name@[i])),
{
    for c in it: name.chars()
        invariant
            it.seq() == name@,
            forall|i: int| 0 <= i < it.index() ==> profile_name_char(#[trigger] name@[i]),
    {
        if !profile_name_allows(c, is_alphanumeric(c)) {
            return false;
        }
    }
    true
}

/// Whether every character of `name` may stand in a minted username.
pub fn is_minted_name(name: &str) -> (r: bool)
    ensures
        r == (forall|i: int| 0 <= i < name@.len() ==> minted_name_char(#[trigger] name@[i])),
{
    for c in it: name.chars()
        invariant
            it.seq() == name@,
            forall|i: int| 0 <= i < it.index() ==> minted_name_char(#[trigger] name@[i]),
    {
        if !minted_name_allows(c, is_alphanumeric(c)) {
            return false;
        }
    }
    true
}

} // verus!
