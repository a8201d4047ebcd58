//! Identifiers for resources that arrive without one.

use vstd::prelude::*;

verus! {

/// The symbols an identifier is made of: letters, digits, `_` and `-`.
pub open spec fn is_id_symbol(c: char) -> bool {
    ||| c == '_'
    ||| c == '-'
    ||| ('0' <= c && c <= '9')
    ||| ('a' <= c && c <= 'z')
    ||| ('A' <= c && c <= 'Z')
}

/// What every generated identifier looks like.
pub open spec fn is_generated_id(id: Seq<char>) -> bool {
    &&& id.len() == 21
    &&& forall|i: int| 0 <= i < id.len() ==> is_id_symbol(#[trigger] id[i])
}

/// Draws `size` random symbols.
///
/// Calls `nanoid::format` with the generator `nanoid::rngs::default` and the
/// alphabet `nanoid::alphabet::SAFE`. That function collects symbols of the
/// alphabet until it has `size` of them, so the contract claims the length
/// and the alphabet and nothing of the symbols drawn. For a `size` of zero it
/// would never return, which the precondition leaves out.
#[verifier::external_body]
fn random_symbols(size: usize) -> (id: String)
    requires
        0 < size <= 1024,
    ensures
        id@.len() == size,
        forall|i: int| 0 <= i < id@.len() ==> is_id_symbol(#[trigger] id@[i]),
{
    nanoid::format(nanoid::rngs::default, &nanoid::alphabet::SAFE, size)
}

/// A fresh random identifier of 21 symbols.
pub fn generate() -> (id: String)
    ensures
        is_generated_id(id@),
{
    random_symbols(21)
}

} // verus!
