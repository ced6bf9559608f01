//! Identifiers of catalogue records.

use vstd::prelude::*;

verus! {

/// Number of characters in a record identifier.
pub const ID_LEN: usize = 26;

/// Whether `c` belongs to the Crockford base-32 alphabet in upper case:
/// the digits and the capital letters without `I`, `L`, `O` and `U`.
pub open spec fn is_id_char(c: char) -> bool {
    ||| '0' <= c <= '9'
    ||| ('A' <= c <= 'Z' && c != 'I' && c != 'L' && c != 'O' && c != 'U')
}

/// Whether `s` has the shape of a record identifier.
pub open spec fn is_id(s: Seq<char>) -> bool {
    &&& s.len() == ID_LEN
    &&& forall|i: int| 0 <= i < s.len() ==> is_id_char(#[trigger] s[i])
}

/// Draws a fresh identifier with `ulid::Ulid::new` and renders it with
/// `Ulid::to_string`. The value depends on the clock and on a random source,
/// so only its shape is claimed: 26 characters of the Crockford alphabet,
/// which is what the crate's base-32 encoder always emits.
#[verifier::external_body]
pub(crate) fn fresh_id() -> (id: String)
    ensures
        is_id(id@),
{
    ulid::Ulid::new().to_string()
}

} // verus!
