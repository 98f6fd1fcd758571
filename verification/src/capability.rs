//! The field capability interface: the five operations that the type of a
//! field supplies, and that a composition folds over a schema.

use vstd::prelude::*;
use crate::cursor::Cursor;

verus! {

/// What an operation on the cursor comes to: what it returns, and how many
/// entries of the account list it takes while doing so.
pub struct Outcome<T, E> {
    pub result: Result<T, E>,
    pub taken: nat,
}

/// What a write to the backing storage comes to: what it returns, and the
/// storage that it leaves behind, whether it succeeds or not.
pub struct Written<S, E> {
    pub result: Result<(), E>,
    pub storage: S,
}

/// The operations that back one field of an account context.
///
/// Each executable operation is paired with a specification function that
/// names what the operation does as a function of its arguments. An
/// implementation owes the equality between the two; a composition is
/// specified over the specification functions alone.
pub trait FieldCapability {
    /// Identifies the program on whose behalf the context is used.
    type ProgramId;

    /// The instruction data that accompanies a parse.
    type Data;

    /// A handle to one account of the list that is consumed.
    type Account;

    /// The value that a field materializes into. Specifications speak of it
    /// by its view.
    type Value: View;

    /// One entry of call metadata, describing one account of a nested call.
    type Meta;

    /// One static dependency of a field.
    type Dependency;

    /// The storage that backs the materialized values. Specifications speak
    /// of it by its view.
    type Storage: View;

    /// What a field operation fails with.
    type Error;

    /// The number of account list entries that the field stands for.
    spec fn count_spec(&self) -> nat;

    /// The static dependencies of the field, in the order in which it
    /// declares them.
    spec fn dependencies_spec(&self) -> Seq<Self::Dependency>;

    /// The materialized value or the error of a parse that finds
    /// `remaining` still in front of the cursor, with the number of entries
    /// that it takes.
    spec fn parse_spec(
        &self,
        program_id: Self::ProgramId,
        data: Self::Data,
        remaining: Seq<Self::Account>,
    ) -> Outcome<<Self::Value as View>::V, Self::Error>;

    /// The metadata entries or the error of a serialization that finds
    /// `remaining` still in front of the cursor, with the number of entries
    /// that it takes.
    spec fn serialize_spec(&self, remaining: Seq<Self::Account>) -> Outcome<
        Seq<Self::Meta>,
        Self::Error,
    >;

    /// The result of writing `value` back, with the storage afterwards.
    spec fn persist_spec(
        &self,
        value: <Self::Value as View>::V,
        program_id: Self::ProgramId,
        storage: <Self::Storage as View>::V,
    ) -> Written<<Self::Storage as View>::V, Self::Error>;

    /// Counts the account list entries that the field stands for.
    fn count(&self) -> (n: usize)
        ensures
            n == self.count_spec(),
    ;

    /// Lists the static dependencies of the field.
    fn dependencies(&self) -> (deps: Vec<Self::Dependency>)
        ensures
            deps@ == self.dependencies_spec(),
    ;

    /// Materializes the field from the entries in front of the cursor.
    fn parse<'a>(
        &self,
        program_id: &Self::ProgramId,
        cursor: &mut Cursor<'a, Self::Account>,
        data: &Self::Data,
    ) -> (value: Result<Self::Value, Self::Error>)
        ensures
            match self.parse_spec(*program_id, *data, old(cursor)@.remaining()).result {
                Ok(parsed) => value is Ok && value->Ok_0@ == parsed,
                Err(error) => value == Err::<Self::Value, Self::Error>(error),
            },
            final(cursor)@ == old(cursor)@.advance(
                self.parse_spec(*program_id, *data, old(cursor)@.remaining()).taken,
            ),
    ;

    /// Emits the call metadata for the entries in front of the cursor.
    fn serialize_partial<'a>(&self, cursor: &mut Cursor<'a, Self::Account>) -> (metas: Result<
        Vec<Self::Meta>,
        Self::Error,
    >)
        ensures
            match self.serialize_spec(old(cursor)@.remaining()).result {
                Ok(entries) => metas is Ok && metas->Ok_0@ == entries,
                Err(error) => metas == Err::<Vec<Self::Meta>, Self::Error>(error),
            },
            final(cursor)@ == old(cursor)@.advance(
                self.serialize_spec(old(cursor)@.remaining()).taken,
            ),
    ;

    /// Writes the materialized value of the field back to its storage.
    fn persist(
        &self,
        value: &Self::Value,
        program_id: &Self::ProgramId,
        storage: &mut Self::Storage,
    ) -> (done: Result<(), Self::Error>)
        ensures
            match self.persist_spec(value@, *program_id, old(storage)@).result {
                Ok(_) => done is Ok,
                Err(error) => done == Err::<(), Self::Error>(error),
            },
            final(storage)@ == self.persist_spec(value@, *program_id, old(storage)@).storage,
    ;
}

} // verus!
