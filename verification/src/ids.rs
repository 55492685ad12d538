//! Fresh identifiers.

use vstd::prelude::*;

verus! {

/// Whether `c` is a digit of a number written in lower-case hexadecimal.
pub open spec fn is_hex_digit(c: char) -> bool {
    '0' <= c <= '9' || 'a' <= c <= 'f'
}

/// Whether `text` is a version 4 UUID in its usual form:
/// `xxxxxxxx-xxxx-4xxx-yxxx-xxxxxxxxxxxx`, where `y` is one of `8`, `9`, `a`, `b`.
pub open spec fn is_version_4_text(text: Seq<char>) -> bool {
    &&& text.len() == 36
    &&& forall|i: int|
        0 <= i < 36 ==> if i == 8 || i == 13 || i == 18 || i == 23 {
            #[trigger] text[i] == '-'
        } else {
            is_hex_digit(text[i])
        }
    &&& text[14] == '4'
    &&& text[19] == '8' || text[19] == '9' || text[19] == 'a' || text[19] == 'b'
}

/// A random version 4 UUID as text: `uuid::Uuid::new_v4` followed by the
/// `Display` form of `uuid::Uuid`.
///
/// The result has the form that [`is_version_4_text`] describes, on every call.
/// Nothing is said about which UUID comes, nor that two calls give different
/// ones: that rests on the random source of the operating system.
#[verifier::external_body]
pub(crate) fn random_uuid_text() -> (text: String)
    ensures
        is_version_4_text(text@),
{
    uuid::Uuid::new_v4().to_string()
}

} // verus!
