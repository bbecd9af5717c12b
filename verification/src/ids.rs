//! Identifiers of games, mods and deployers.
//!
//! Every identifier is a UUID, held here as the 128-bit value that
//! `uuid::Uuid::as_u128` gives (the UUID's sixteen bytes read big-endian).
use vstd::prelude::*;

verus! {

/// The digit that the lower-case hexadecimal notation uses for `n` (`0 <= n < 16`).
pub open spec fn hex_digit_lower(n: int) -> char {
    if n < 10 {
        (n + 48) as char
    } else {
        (n + 87) as char
    }
}

/// The `k`-th hexadecimal digit of `v`, counted from the most significant one
/// (`0 <= k < 32`).
pub open spec fn nibble(v: u128, k: int) -> int {
    ((v >> ((124 - 4 * k) as u128)) & 15u128) as int
}

/// Which hexadecimal digit of the value stands at position `i` of the
/// hyphenated text (the hyphens stand at 8, 13, 18 and 23).
pub open spec fn digit_at(i: int) -> int {
    if i < 8 {
        i
    } else if i < 13 {
        i - 1
    } else if i < 18 {
        i - 2
    } else if i < 23 {
        i - 3
    } else {
        i - 4
    }
}

/// The hyphenated lower-case text of a UUID, such as
/// `67e55044-10b1-426f-9247-bb680e5fe0c8`: 36 characters, the 32 hexadecimal
/// digits of the value, most significant first, in groups of 8, 4, 4, 4 and 12.
pub open spec fn uuid_text(v: u128) -> Seq<char> {
    Seq::new(
        36,
        |i: int|
            if i == 8 || i == 13 || i == 18 || i == 23 {
                '-'
            } else {
                hex_digit_lower(nibble(v, digit_at(i)))
            },
    )
}

/// A random (version 4) identifier from `uuid::Uuid::new_v4`.
///
/// The uuid crate sets the version nibble to 4 and the variant bits to `10`;
/// the rest is random, so nothing more is claimed of the value.
#[verifier::external_body]
pub(crate) fn new_random_id() -> (id: u128)
    ensures
        (id >> 76u128) & 15u128 == 4,
        (id >> 62u128) & 3u128 == 2,
{
    uuid::Uuid::new_v4().as_u128()
}

/// The identifier that `uuid::Uuid::default` gives: the nil UUID, all zero.
#[verifier::external_body]
pub(crate) fn default_id() -> (id: u128)
    ensures
        id == 0,
{
    uuid::Uuid::default().as_u128()
}

/// The text that `Uuid::to_string` gives for an identifier: the uuid crate
/// formats it hyphenated and in lower case (`fmt::Display` forwards to
/// `LowerHex`, which writes `format_hyphenated` with lower-case digits).
#[verifier::external_body]
pub(crate) fn id_to_string(id: u128) -> (text: String)
    ensures
        text@ == uuid_text(id),
{
    uuid::Uuid::from_u128(id).to_string()
}

} // verus!
