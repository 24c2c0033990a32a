//! Identifiers of responses and of their items.

use vstd::prelude::*;

verus! {

/// The number of characters of an identifier.
pub const ID_LENGTH: usize = 21;

/// Whether a character can stand in an identifier: the letters and digits of
/// ASCII, the underscore and the hyphen.
pub open spec fn is_id_char(c: char) -> bool {
    ||| 'a' <= c <= 'z'
    ||| 'A' <= c <= 'Z'
    ||| '0' <= c <= '9'
    ||| c == '_'
    ||| c == '-'
}

/// Whether a text has the form of an identifier.
pub open spec fn is_id(id: Seq<char>) -> bool {
    &&& id.len() == ID_LENGTH
    &&& forall|i: int| 0 <= i < id.len() ==> is_id_char(#[trigger] id[i])
}

/// Calls [`nanoid::format`] with the generator [`nanoid::rngs::default`] and
/// the alphabet [`nanoid::alphabet::SAFE`], as `nanoid!` does.
///
/// The characters are drawn at random. What the contract claims is that there
/// are as many as were asked for and that each is of the alphabet. For no
/// characters at all the outside function would not return. It unwinds where
/// the system has no randomness to give, which no argument decides.
#[verifier::external_body]
fn nanoid_format(size: usize) -> (id: String)
    requires
        0 < size <= 0xffff,
    ensures
        id@.len() == size,
        forall|i: int| 0 <= i < id@.len() ==> is_id_char(#[trigger] id@[i]),
{
    nanoid::format(nanoid::rngs::default, &nanoid::alphabet::SAFE, size)
}

/// A new identifier.
pub fn new_id() -> (id: String)
    ensures
        is_id(id@),
{
    nanoid_format(ID_LENGTH)
}

} // verus!
