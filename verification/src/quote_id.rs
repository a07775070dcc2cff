use vstd::prelude::*;
use vstd::arithmetic::power::pow;

use crate::error::MintError;

verus! {

/// The lower-case hexadecimal digit of a value below sixteen.
pub open spec fn hex_digit(n: int) -> char {
    if n < 10 {
        (48 + n) as char
    } else {
        (97 + n - 10) as char
    }
}

/// The `i`-th of the 32 hexadecimal digits of `v`, counted from the most
/// significant one.
pub open spec fn nibble(v: u128, i: int) -> int {
    (v as int / pow(16, (31 - i) as nat)) % 16
}

/// The 32 lower-case hexadecimal digits of `v`, most significant first.
pub open spec fn hex32(v: u128) -> Seq<char> {
    Seq::new(32, |i: int| hex_digit(nibble(v, i)))
}

/// The hyphenated text of a UUID: its 32 hexadecimal digits in groups of
/// 8, 4, 4, 4 and 12, joined by hyphens.
pub open spec fn uuid_hyphenated(v: u128) -> Seq<char> {
    let h = hex32(v);
    h.subrange(0, 8) + seq!['-'] + h.subrange(8, 12) + seq!['-'] + h.subrange(12, 16) + seq!['-']
        + h.subrange(16, 20) + seq!['-'] + h.subrange(20, 32)
}

/// Whether `s` is the lower-case text of the UUID `v`, hyphenated or as 32
/// bare hexadecimal digits.
pub open spec fn is_lower_text_of(s: Seq<char>, v: u128) -> bool {
    s == uuid_hyphenated(v) || s == hex32(v)
}

/// What `uuid::Uuid::from_str` reads from a text: the UUID as a 128-bit
/// big-endian number, or nothing where the text is not a UUID.
pub uninterp spec fn uuid_parse(s: Seq<char>) -> Option<u128>;

/// The bits of a UUID that carry its version and variant.
pub open spec fn version_variant_mask() -> u128 {
    0xF000_C000_0000_0000_0000u128
}

/// The version and variant bits of a random (version 4, RFC 4122) UUID.
pub open spec fn random_uuid_bits() -> u128 {
    0x4000_8000_0000_0000_0000u128
}

/// Calls `uuid::Uuid::new_v4` and hands out the UUID as a number. The
/// result is random; all that is claimed is what the crate sets in every
/// outcome: the version nibble is 4 and the variant bits are `10`.
#[verifier::external_body]
fn new_v4_uuid() -> (id: u128)
    ensures
        id & version_variant_mask() == random_uuid_bits(),
{
    uuid::Uuid::new_v4().as_u128()
}

/// Calls `uuid::Uuid::from_str` (the crate's `parse_str`) and hands out the
/// parsed UUID as a number. Claimed: the result is the crate's reading of
/// the text, named `uuid_parse`; and, as the crate's parser accepts the
/// hyphenated form that its `Display` writes and the 32 bare digits of the
/// simple form, the lower-case text of a value in either form reads back as
/// that value.
#[verifier::external_body]
fn parse_uuid(text: &str) -> (r: Result<u128, uuid::Error>)
    ensures
        r is Ok <==> uuid_parse(text@) is Some,
        r matches Ok(v) ==> uuid_parse(text@) == Some(v),
        r is Ok || forall|v: u128| !is_lower_text_of(text@, v),
        r matches Ok(x) ==> forall|v: u128| is_lower_text_of(text@, v) ==> x == v,
{
    match <uuid::Uuid as std::str::FromStr>::from_str(text) {
        Ok(u) => Ok(u.as_u128()),
        Err(e) => Err(e),
    }
}

/// Calls `to_string` on a `uuid::Uuid`, whose `Display` writes the
/// lower-case hyphenated form. Claimed: the text is exactly that form.
#[verifier::external_body]
fn uuid_to_text(id: u128) -> (s: String)
    ensures
        s@ == uuid_hyphenated(id),
{
    uuid::Uuid::from_u128(id).to_string()
}

/// A fresh id for a new quote: a random UUID.
pub fn new_quote_id() -> (id: u128)
    ensures
        id & version_variant_mask() == random_uuid_bits(),
{
    new_v4_uuid()
}

/// The text of a quote id, as the mint hands it out and as the invoice of a
/// mint quote is keyed by.
pub fn quote_id_text(id: u128) -> (s: String)
    ensures
        s@ == uuid_hyphenated(id),
{
    uuid_to_text(id)
}

/// Reads a quote id that a client sent. A text that is not a UUID is
/// refused with `InvalidUuid`; the text of an id as the mint writes it
/// reads back as that id, and so does the simple form of 32 bare digits.
pub fn parse_quote_id(text: &str) -> (r: Result<u128, MintError>)
    ensures
        r is Ok <==> uuid_parse(text@) is Some,
        r matches Ok(v) ==> uuid_parse(text@) == Some(v),
        r is Err ==> r matches Err(MintError::InvalidUuid(_)),
        forall|v: u128| is_lower_text_of(text@, v) ==> r == Ok::<u128, MintError>(v),
{
    match parse_uuid(text) {
        Ok(v) => Ok(v),
        Err(e) => Err(MintError::InvalidUuid(e)),
    }
}

} // verus!
