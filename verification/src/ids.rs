//! Ids of chunks and sessions.

use vstd::prelude::*;

verus! {

/// A lower-case hexadecimal digit.
pub open spec fn is_hex_digit(c: char) -> bool {
    ('0' <= c && c <= '9') || ('a' <= c && c <= 'f')
}

/// The hyphenated text of a version 7 UUID: groups of 8, 4, 4, 4 and 12
/// hexadecimal digits, with the version and the variant in their places.
pub open spec fn is_uuid_v7(s: Seq<char>) -> bool {
    &&& s.len() == 36
    &&& forall|i: int|
        0 <= i < 36 ==> if i == 8 || i == 13 || i == 18 || i == 23 {
            #[trigger] s[i] == '-'
        } else {
            is_hex_digit(s[i])
        }
    &&& s[14] == '7'
    &&& s[19] == '8' || s[19] == '9' || s[19] == 'a' || s[19] == 'b'
}

/// `uuid::Uuid::now_v7` and its `Display`: a fresh id. The id rests on the
/// clock and on chance; it is trusted for its form alone, and nothing is said
/// of how likely an id is to come up again. A clock before the Unix epoch or a
/// failing source of randomness makes the call panic.
#[verifier::external_body]
pub(crate) fn next_id() -> (id: String)
    ensures
        is_uuid_v7(id@),
{
    uuid::Uuid::now_v7().to_string()
}

} // verus!
