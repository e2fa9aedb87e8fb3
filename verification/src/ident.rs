//! Identifiers. An identifier is a UUID, held as the 128-bit number that its
//! sixteen bytes spell in big-endian order.

use vstd::prelude::*;

verus! {

/// The namespace under which series names are hashed into identifiers: the
/// ISO OID namespace of RFC 9562, `6ba7b812-9dad-11d1-80b4-00c04fd430c8`.
pub const SERIES_NAMESPACE: u128 = 0x6ba7b812_9dad_11d1_80b4_00c04fd430c8;

/// The lower-case hexadecimal digit for `n`, which is below sixteen.
pub open spec fn hex_digit(n: int) -> char {
    if n < 10 {
        (48 + n) as char
    } else {
        (87 + n) as char
    }
}

/// The `width` lowest hexadecimal digits of `n`, most significant first.
pub open spec fn hex(n: nat, width: nat) -> Seq<char>
    decreases width,
{
    if width == 0 {
        Seq::<char>::empty()
    } else {
        hex(n / 16, (width - 1) as nat).push(hex_digit((n % 16) as int))
    }
}

/// The usual text of a UUID: 32 lower-case hexadecimal digits in groups of
/// 8, 4, 4, 4 and 12, with a hyphen between groups.
pub open spec fn hyphenated(id: u128) -> Seq<char> {
    let h = hex(id as nat, 32);
    h.subrange(0, 8) + seq!['-'] + h.subrange(8, 12) + seq!['-'] + h.subrange(12, 16) + seq!['-']
        + h.subrange(16, 20) + seq!['-'] + h.subrange(20, 32)
}

/// What `uuid::Uuid::parse_str` makes of `text`: the identifier that it
/// spells in one of the forms the parser accepts, or `None`.
pub uninterp spec fn uuid_parsed(text: Seq<char>) -> Option<u128>;

/// What `uuid::Uuid::new_v5` returns: the name-based (SHA-1) identifier of
/// `name`, taken as its UTF-8 bytes, under `namespace`.
pub uninterp spec fn uuid_v5_of(namespace: u128, name: Seq<char>) -> u128;

/// Writes an identifier in its hyphenated form.
///
/// Trusted: formats `uuid::Uuid::from_u128(id)` with its `Display`, which
/// writes the hyphenated lower-case form; `from_u128` takes the number as the
/// sixteen bytes in big-endian order.
#[verifier::external_body]
pub(crate) fn uuid_to_string(id: u128) -> (r: String)
    ensures
        r@ == hyphenated(id),
{
    uuid::Uuid::from_u128(id).to_string()
}

/// Reads an identifier from text.
///
/// Trusted: calls `uuid::Uuid::parse_str` and takes `as_u128()` of its
/// result. The contract only names the result.
#[verifier::external_body]
pub(crate) fn uuid_parse(text: &str) -> (r: Option<u128>)
    ensures
        r == uuid_parsed(text@),
{
    match uuid::Uuid::parse_str(text) {
        Ok(id) => Some(id.as_u128()),
        Err(_) => None,
    }
}

/// The name-based identifier of `name` under `namespace`.
///
/// Trusted: calls `uuid::Uuid::new_v5` on the namespace and the bytes of
/// `name`. The contract only names the result, which depends on nothing but
/// the two arguments.
#[verifier::external_body]
pub(crate) fn uuid_v5(namespace: u128, name: &str) -> (r: u128)
    ensures
        r == uuid_v5_of(namespace, name@),
{
    uuid::Uuid::new_v5(&uuid::Uuid::from_u128(namespace), name.as_bytes()).as_u128()
}

/// A fresh random identifier.
///
/// Trusted: calls `uuid::Uuid::new_v4`. Nothing is claimed of the result.
#[verifier::external_body]
pub(crate) fn uuid_random() -> (r: u128)
{
    uuid::Uuid::new_v4().as_u128()
}

} // verus!
