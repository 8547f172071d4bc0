//! Identifiers of declarations.

use vstd::prelude::*;
use vstd::string::*;

verus! {

/// The identifier that belongs to a name: the text of the name itself, so
/// that two names share an identifier only when they are the same name.
pub open spec fn id_of(name: Seq<char>) -> Seq<char> {
    name
}

/// The stable identifier of the declaration called `name`.
pub fn generate_id(name: &str) -> (id: String)
    ensures
        id@ == id_of(name@),
{
    name.to_owned()
}

/// Different names never get the same identifier.
pub proof fn lemma_id_injective(a: Seq<char>, b: Seq<char>)
    requires
        id_of(a) == id_of(b),
    ensures
        a == b,
{
}

} // verus!
