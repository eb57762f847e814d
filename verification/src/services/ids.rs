//! Fresh identifiers.
use vstd::prelude::*;

verus! {

/// Whether `c` is a lower-case hexadecimal digit.
pub open spec fn is_lower_hex_digit(c: char) -> bool {
    ('0' <= c && c <= '9') || ('a' <= c && c <= 'f')
}

/// Whether `s` is a version-4 UUID in hyphenated lower-case form:
/// `xxxxxxxx-xxxx-4xxx-Yxxx-xxxxxxxxxxxx`, with `Y` one of `8`, `9`, `a`, `b`.
pub open spec fn is_v4_uuid_text(s: Seq<char>) -> bool {
    &&& s.len() == 36
    &&& s[8] == '-' && s[13] == '-' && s[18] == '-' && s[23] == '-'
    &&& forall|i: int|
        0 <= i < 36 && i != 8 && i != 13 && i != 18 && i != 23 ==> is_lower_hex_digit(
            #[trigger] s[i],
        )
    &&& s[14] == '4'
    &&& (s[19] == '8' || s[19] == '9' || s[19] == 'a' || s[19] == 'b')
}

/// A random version-4 UUID in its hyphenated form
/// (`uuid::Uuid::new_v4().to_string()`).
///
/// Claims the form of the text: uuid masks in the version and variant bits
/// and writes the sixteen bytes as lower-case hexadecimal in groups of 8, 4,
/// 4, 4 and 12 digits. Which identifier comes out is left open.
#[verifier::external_body]
pub(crate) fn new_uuid() -> (r: String)
    ensures
        is_v4_uuid_text(r@),
{
    uuid::Uuid::new_v4().to_string()
}

} // verus!
