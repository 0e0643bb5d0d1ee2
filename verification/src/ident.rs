//! Identifiers: every record is created under a fresh ULID, written as text.

use ulid::Ulid;
use vstd::prelude::*;

verus! {

/// A character of Crockford's base-32 alphabet: a digit, or an upper-case
/// letter other than `I`, `L`, `O` and `U`.
pub open spec fn is_crockford(c: char) -> bool {
    ||| '0' <= c <= '9'
    ||| ('A' <= c <= 'Z' && c != 'I' && c != 'L' && c != 'O' && c != 'U')
}

/// The canonical text of a ULID: 26 characters of Crockford's alphabet.
pub open spec fn is_ulid_text(text: Seq<char>) -> bool {
    &&& text.len() == 26
    &&& forall|i: int| 0 <= i < text.len() ==> is_crockford(#[trigger] text[i])
}

/// `Ulid::generate` followed by `Ulid::to_string`: the text of a ULID made
/// from the current time and random bits. Which ULID comes out is open; its
/// text always has 26 characters, each from Crockford's alphabet.
#[verifier::external_body]
pub(crate) fn generate_id() -> (id: String)
    ensures
        is_ulid_text(id@),
{
    Ulid::generate().to_string()
}

} // verus!
