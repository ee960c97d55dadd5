//! Record identities: 128-bit tokens drawn at random when a record is
//! inserted, and their textual form in the store's unique index.

use vstd::prelude::*;

verus! {

/// The four bits of a token that hold its version, and the two that hold its
/// variant.
pub const FIXED_BITS: u128 = 0x0000_0000_0000_F000_C000_0000_0000_0000;

/// What the fixed bits hold in a token drawn at random: version 4, and the
/// variant of the standard.
pub const RANDOM_BITS: u128 = 0x0000_0000_0000_4000_8000_0000_0000_0000;

/// Whether `id` has the shape of a token drawn at random.
pub open spec fn is_random_identity(id: u128) -> bool {
    id & FIXED_BITS == RANDOM_BITS
}

/// The lower-case hexadecimal digit for a value below sixteen.
pub open spec fn hex_digit(n: u128) -> char {
    seq!['0', '1', '2', '3', '4', '5', '6', '7', '8', '9', 'a', 'b', 'c', 'd', 'e', 'f'][n as int]
}

/// The character at position `i` of the textual form of `id`: a hyphen after
/// the 8th, 12th, 16th and 20th digit, and elsewhere the digits of `id`, the
/// most significant first.
pub open spec fn identity_char(id: u128, i: int) -> char {
    if i == 8 || i == 13 || i == 18 || i == 23 {
        '-'
    } else {
        let hyphens: int = if i > 23 {
            4
        } else if i > 18 {
            3
        } else if i > 13 {
            2
        } else if i > 8 {
            1
        } else {
            0
        };
        let digit = i - hyphens;
        hex_digit((id >> ((4 * (31 - digit)) as u128)) & 0xf)
    }
}

/// The textual form of an identity: 32 lower-case hexadecimal digits in
/// groups of 8, 4, 4, 4 and 12, with hyphens between the groups.
pub open spec fn identity_text(id: u128) -> Seq<char> {
    Seq::new(36, |i: int| identity_char(id, i))
}

/// The identity that a text stands for, if it stands for one. This is what
/// `uuid::Uuid::parse_str` makes of the text, as a 128-bit number.
pub uninterp spec fn parsed_identity(text: Seq<char>) -> Option<u128>;

/// `uuid::Error`, the error of `uuid::Uuid::parse_str`. Nothing is read from
/// it.
#[verifier::external_type_specification]
#[verifier::external_body]
pub struct ExIdentityParseError(uuid::Error);

/// Draws a fresh identity with `uuid::Uuid::new_v4`.
///
/// Nothing is claimed of the random bits. The version and variant bits are
/// those that `new_v4` sets on every token it returns. The call aborts if the
/// operating system can supply no random bytes.
#[verifier::external_body]
pub(crate) fn fresh_identity() -> (id: u128)
    ensures
        is_random_identity(id),
{
    uuid::Uuid::new_v4().as_u128()
}

/// Writes an identity out with `uuid::Uuid::hyphenated`.
///
/// The text is the hyphenated lower-case form, and `uuid::Uuid::parse_str`
/// reads that form back to the same identity.
#[verifier::external_body]
pub(crate) fn write_identity(id: u128) -> (text: String)
    ensures
        text@ == identity_text(id),
        parsed_identity(text@) == Some(id),
{
    uuid::Uuid::from_u128(id).hyphenated().to_string()
}

/// Reads an identity with `uuid::Uuid::parse_str`.
///
/// The call succeeds exactly on the texts that stand for an identity, and
/// then returns that identity.
#[verifier::external_body]
pub(crate) fn read_identity(text: &str) -> (r: Result<u128, uuid::Error>)
    ensures
        r is Ok <==> parsed_identity(text@) is Some,
        r matches Ok(id) ==> parsed_identity(text@) == Some(id),
{
    match uuid::Uuid::parse_str(text) {
        Ok(token) => Ok(token.as_u128()),
        Err(e) => Err(e),
    }
}

} // verus!
