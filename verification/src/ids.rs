//! Identifiers: users, rooms and chat sessions are named by 128-bit UUIDs,
//! held here as the `u128` whose big-endian bytes are the UUID's bytes.
use vstd::prelude::*;

verus! {

/// The lowercase hexadecimal digits.
pub open spec fn hex_digits() -> Seq<char> {
    seq!['0', '1', '2', '3', '4', '5', '6', '7', '8', '9', 'a', 'b', 'c', 'd', 'e', 'f']
}

/// The `k`-th hexadecimal digit of `id`, counted from the most significant one (`0 <= k < 32`).
pub open spec fn nibble(id: u128, k: int) -> int {
    (id as int / vstd::arithmetic::power::pow(16, (31 - k) as nat)) % 16
}

/// Which hexadecimal digit stands at position `i` of the hyphenated text.
pub open spec fn digit_at(i: int) -> int {
    if i < 8 {
        i
    } else if i < 13 {
        i - 1
    } else if i < 18 {
        i - 2
    } else if i < 23 {
        i - 3
    } else {
        i - 4
    }
}

/// The hyphenated lowercase text of a UUID, `xxxxxxxx-xxxx-xxxx-xxxx-xxxxxxxxxxxx`.
pub open spec fn uuid_text(id: u128) -> Seq<char> {
    Seq::new(
        36,
        |i: int|
            if i == 8 || i == 13 || i == 18 || i == 23 {
                '-'
            } else {
                hex_digits()[nibble(id, digit_at(i))]
            },
    )
}

/// What `uuid::Uuid::parse_str` makes of a text: the UUID it denotes, if it denotes one.
pub uninterp spec fn uuid_parse(text: Seq<char>) -> Option<u128>;

/// The version field of a UUID (bits 76 to 79).
pub open spec fn uuid_version(id: u128) -> u128 {
    (id >> 76u128) & 15u128
}

/// The variant field of a UUID (bits 62 and 63).
pub open spec fn uuid_variant(id: u128) -> u128 {
    (id >> 62u128) & 3u128
}

#[verifier::external_type_specification]
#[verifier::external_body]
pub struct ExUuidError(uuid::Error);

/// The error of a failed UUID parse.
#[derive(Debug, Clone, Copy, PartialEq, Eq, Structural)]
pub enum UuidParseError {
    Invalid,
}

/// Calls `uuid::Uuid::parse_str`. Trusted: the result is the value named by
/// `uuid_parse`, and the hyphenated lowercase text of a UUID (what `Display`
/// writes for it) parses back to that UUID, as the crate documents.
#[verifier::external_body]
fn uuid_parse_str(text: &str) -> (res: Result<u128, uuid::Error>)
    ensures
        res.is_ok() == uuid_parse(text@).is_some(),
        res matches Ok(id) ==> uuid_parse(text@) == Some(id),
        forall|id: u128| #[trigger] uuid_text(id) == text@ ==> res.is_ok() && res->Ok_0 == id,
{
    uuid::Uuid::parse_str(text).map(|u| u.as_u128())
}

/// Calls `Display` of `uuid::Uuid`. Trusted: the text is the hyphenated lowercase
/// form, digits in big-endian order (as `Uuid::from_u128` and the crate's `fmt` module show).
#[verifier::external_body]
fn uuid_display(id: u128) -> (res: String)
    ensures
        res@ == uuid_text(id),
{
    uuid::Uuid::from_u128(id).to_string()
}

/// Calls `uuid::Uuid::new_v4`. Trusted: the result is random; of every outcome,
/// the source shows that the version field is 4 and the variant field is `0b10`.
#[verifier::external_body]
fn uuid_new_v4() -> (res: u128)
    ensures
        uuid_version(res) == 4,
        uuid_variant(res) == 2,
{
    uuid::Uuid::new_v4().as_u128()
}

/// Parses a UUID written in any of the forms the `uuid` crate accepts.
pub fn parse_uuid(text: &str) -> (res: Result<u128, UuidParseError>)
    ensures
        match uuid_parse(text@) {
            Some(id) => res == Ok::<u128, UuidParseError>(id),
            None => res == Err::<u128, UuidParseError>(UuidParseError::Invalid),
        },
        forall|id: u128| #[trigger] uuid_text(id) == text@ ==> res == Ok::<u128, UuidParseError>(id),
{
    match uuid_parse_str(text) {
        Ok(id) => Ok(id),
        Err(_) => Err(UuidParseError::Invalid),
    }
}

/// The hyphenated lowercase text of a UUID.
pub fn uuid_to_string(id: u128) -> (res: String)
    ensures
        res@ == uuid_text(id),
{
    uuid_display(id)
}

/// A fresh random (version 4) UUID.
pub fn new_v4() -> (res: u128)
    ensures
        uuid_version(res) == 4,
        uuid_variant(res) == 2,
{
    uuid_new_v4()
}

} // verus!
