//! What a composed procedure fails with.

use vstd::prelude::*;

verus! {

/// Why the metadata of an account context could not be emitted.
#[derive(Debug, PartialEq, Eq)]
pub enum SerializeError<E> {
    /// A field failed; its error is carried as the field returned it.
    Field(E),
    /// Every field succeeded, but together they emitted a number of entries
    /// that is not the count of the schema: a field emitted more or fewer
    /// entries than it counts for, or the account list was too short.
    InvalidAccountData,
}

} // verus!
