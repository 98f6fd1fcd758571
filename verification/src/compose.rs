//! The composed procedures of an account context.

use vstd::prelude::*;
use crate::capability::FieldCapability;
use crate::cursor::Cursor;
use crate::error::SerializeError;
use crate::instance::Instance;
use crate::model::{
    count_sum, dependencies_concat, lemma_count_sum_grows, lemma_dependencies_concat_push,
    lemma_parse_length, lemma_parse_stays_failed, lemma_persist_stays_failed,
    lemma_serialize_stays_failed, parse_all, parse_prefix, persist_all, persist_prefix,
    serialize_all, serialize_prefix,
};
use crate::schema::{Schema, SchemaError};

verus! {

/// The procedures composed from one schema: the account context as a whole.
pub struct FromAccounts<F: FieldCapability> {
    schema: Schema<F>,
}

impl<F: FieldCapability> View for FromAccounts<F> {
    type V = Seq<(Seq<char>, F)>;

    /// The fields of the schema in declaration order, each as its name and
    /// its capability.
    closed spec fn view(&self) -> Seq<(Seq<char>, F)> {
        self.schema@
    }
}

impl<F: FieldCapability> FromAccounts<F> {
    /// The names of the fields, in declaration order.
    pub open spec fn names(&self) -> Seq<Seq<char>> {
        self@.map_values(|field: (Seq<char>, F)| field.0)
    }

    /// The capabilities of the fields, in declaration order.
    pub open spec fn kinds(&self) -> Seq<F> {
        self@.map_values(|field: (Seq<char>, F)| field.1)
    }

    /// No two fields share a name, and the number of account list entries
    /// that the fields stand for is one that a list can have.
    #[verifier::type_invariant]
    pub open spec fn wf(self) -> bool {
        &&& self.names().no_duplicates()
        &&& count_sum(self.kinds()) <= usize::MAX
    }

    /// Composes the procedures of `schema`.
    ///
    /// Fails only for a schema that stands for more account list entries than
    /// any list can hold.
    pub fn new(schema: Schema<F>) -> (composed: Result<Self, SchemaError>)
        ensures
            count_sum(schema.kinds()) <= usize::MAX ==> {
                &&& composed is Ok
                &&& composed->Ok_0@ == schema@
                &&& composed->Ok_0.wf()
            },
            count_sum(schema.kinds()) > usize::MAX ==> composed == Err::<Self, SchemaError>(
                SchemaError::CountOverflow,
            ),
    {
        proof {
            use_type_invariant(&schema);
        }
        let mut total: usize = 0;
        let mut index: usize = 0;
        while index < schema.len()
            invariant
                index <= schema@.len(),
                total == count_sum(schema.kinds().take(index as int)),
            decreases schema@.len() - index,
        {
            let count = schema.field_at(index).count();
            proof {
                let next = schema.kinds().take(index + 1);
                assert(next.drop_last() == schema.kinds().take(index as int));
            }
            match total.checked_add(count) {
                Some(sum) => {
                    total = sum;
                },
                None => {
                    proof {
                        lemma_count_sum_grows(schema.kinds(), index + 1);
                    }
                    return Err(SchemaError::CountOverflow);
                },
            }
            index = index + 1;
        }
        proof {
            assert(schema.kinds().take(index as int) == schema.kinds());
        }
        Ok(FromAccounts { schema })
    }

    /// The schema that the procedures were composed from.
    pub fn schema(&self) -> (schema: &Schema<F>)
        ensures
            schema@ == self@,
    {
        &self.schema
    }

    /// The value that `instance` holds for the field called `name`.
    pub fn value_of<'b>(&self, instance: &'b Instance<F::Value>, name: &String) -> (value: Option<
        &'b F::Value,
    >)
        ensures
            match value {
                Some(value) => exists|index: int|
                    {
                        &&& 0 <= index < self@.len()
                        &&& index < instance@.len()
                        &&& #[trigger] self.names()[index] == name@
                        &&& value@ == instance@[index]
                    },
                None => forall|index: int|
                    0 <= index < self@.len() && index < instance@.len() ==> self.names()[index]
                        != name@,
            },
    {
        proof {
            use_type_invariant(self);
        }
        match self.schema.index_of(name) {
            Some(index) => instance.value(index),
            None => None,
        }
    }

    /// Materializes the account context from the entries in front of the
    /// cursor.
    ///
    /// The fields are parsed in declaration order, each from what the fields
    /// before it left in front of the cursor. The first failure ends the
    /// parse: its error is returned as it is, no later field is parsed, and
    /// the cursor stays where the failing field left it.
    pub fn parse<'a>(
        &self,
        program_id: &F::ProgramId,
        cursor: &mut Cursor<'a, F::Account>,
        data: &F::Data,
    ) -> (instance: Result<Instance<F::Value>, F::Error>)
        ensures
            match parse_all(self.kinds(), *program_id, *data, old(cursor)@.remaining()).result {
                Ok(values) => instance is Ok && instance->Ok_0@ == values,
                Err(error) => instance == Err::<Instance<F::Value>, F::Error>(error),
            },
            final(cursor)@ == old(cursor)@.advance(
                parse_all(self.kinds(), *program_id, *data, old(cursor)@.remaining()).taken,
            ),
            instance matches Ok(parsed) ==> parsed@.len() == self.kinds().len(),
    {
        let ghost start = cursor@;
        let ghost accounts = cursor@.remaining();
        let ghost kinds = self.kinds();
        let mut values: Vec<F::Value> = Vec::new();
        let mut index: usize = 0;
        while index < self.schema.len()
            invariant
                kinds == self.kinds(),
                kinds.len() == self.schema@.len(),
                index <= kinds.len(),
                start == old(cursor)@,
                accounts == start.remaining(),
                parse_prefix(kinds, *program_id, *data, accounts, index as nat).result is Ok,
                parse_prefix(kinds, *program_id, *data, accounts, index as nat).result->Ok_0
                    == values@.map_values(|value: F::Value| value@),
                parse_prefix(kinds, *program_id, *data, accounts, index as nat).taken
                    == cursor@.position - start.position,
                cursor@.accounts == start.accounts,
                cursor@.position >= start.position,
            decreases kinds.len() - index,
        {
            let ghost before = cursor@;
            proof {
                use_type_invariant(&*cursor);
                assert(before.remaining() == accounts.skip(before.position - start.position));
            }
            match self.schema.field_at(index).parse(program_id, cursor, data) {
                Ok(value) => {
                    values.push(value);
                },
                Err(error) => {
                    proof {
                        lemma_parse_stays_failed(
                            kinds,
                            *program_id,
                            *data,
                            accounts,
                            (index + 1) as nat,
                            kinds.len(),
                        );
                    }
                    return Err(error);
                },
            }
            index = index + 1;
        }
        proof {
            lemma_parse_length(kinds, *program_id, *data, accounts, kinds.len());
        }
        Ok(Instance::new(values))
    }

    /// The number of account list entries that a parse of the whole context
    /// takes: the sum of the counts of the fields.
    pub fn count(&self) -> (n: usize)
        ensures
            n == count_sum(self.kinds()),
    {
        proof {
            use_type_invariant(self);
        }
        let mut total: usize = 0;
        let mut index: usize = 0;
        while index < self.schema.len()
            invariant
                self.wf(),
                self.kinds().len() == self.schema@.len(),
                index <= self.kinds().len(),
                total == count_sum(self.kinds().take(index as int)),
            decreases self.kinds().len() - index,
        {
            let count = self.schema.field_at(index).count();
            proof {
                let next = self.kinds().take(index + 1);
                assert(next.drop_last() == self.kinds().take(index as int));
                lemma_count_sum_grows(self.kinds(), index + 1);
            }
            total = total + count;
            index = index + 1;
        }
        proof {
            assert(self.kinds().take(index as int) == self.kinds());
        }
        total
    }

    /// The static dependencies of the whole context: those of each field,
    /// field after field in declaration order, with nothing left out.
    pub fn dependencies(&self) -> (deps: Vec<F::Dependency>)
        ensures
            deps@ == dependencies_concat(self.kinds()),
    {
        let mut deps: Vec<F::Dependency> = Vec::new();
        let mut index: usize = 0;
        while index < self.schema.len()
            invariant
                self.kinds().len() == self.schema@.len(),
                index <= self.kinds().len(),
                deps@ == dependencies_concat(self.kinds().take(index as int)),
            decreases self.kinds().len() - index,
        {
            let mut part = self.schema.field_at(index).dependencies();
            proof {
                lemma_dependencies_concat_push(self.kinds(), index as int);
            }
            deps.append(&mut part);
            index = index + 1;
        }
        proof {
            assert(self.kinds().take(index as int) == self.kinds());
        }
        deps
    }

    /// Emits the call metadata of the whole context for the entries in front
    /// of the cursor: the entries of each field, field after field in
    /// declaration order.
    ///
    /// The first field that fails ends the serialization with its error.
    /// When every field has succeeded, the entries must be as many as the
    /// context counts for; otherwise the data is invalid.
    pub fn serialize_to_metadata<'a>(&self, cursor: &mut Cursor<'a, F::Account>) -> (metas: Result<
        Vec<F::Meta>,
        SerializeError<F::Error>,
    >)
        ensures
            match serialize_all(self.kinds(), old(cursor)@.remaining()).result {
                Ok(entries) => metas is Ok && metas->Ok_0@ == entries,
                Err(error) => metas == Err::<Vec<F::Meta>, SerializeError<F::Error>>(error),
            },
            final(cursor)@ == old(cursor)@.advance(
                serialize_all(self.kinds(), old(cursor)@.remaining()).taken,
            ),
            metas matches Ok(entries) ==> entries@.len() == count_sum(self.kinds()),
    {
        let ghost start = cursor@;
        let ghost accounts = cursor@.remaining();
        let ghost kinds = self.kinds();
        let mut emitted: Vec<F::Meta> = Vec::new();
        let mut index: usize = 0;
        while index < self.schema.len()
            invariant
                kinds == self.kinds(),
                kinds.len() == self.schema@.len(),
                index <= kinds.len(),
                start == old(cursor)@,
                accounts == start.remaining(),
                serialize_prefix(kinds, accounts, index as nat).result is Ok,
                serialize_prefix(kinds, accounts, index as nat).result->Ok_0 == emitted@,
                serialize_prefix(kinds, accounts, index as nat).taken == cursor@.position
                    - start.position,
                cursor@.accounts == start.accounts,
                cursor@.position >= start.position,
            decreases kinds.len() - index,
        {
            let ghost before = cursor@;
            proof {
                use_type_invariant(&*cursor);
                assert(before.remaining() == accounts.skip(before.position - start.position));
            }
            match self.schema.field_at(index).serialize_partial(cursor) {
                Ok(part) => {
                    let mut part = part;
                    emitted.append(&mut part);
                },
                Err(error) => {
                    proof {
                        lemma_serialize_stays_failed(
                            kinds,
                            accounts,
                            (index + 1) as nat,
                            kinds.len(),
                        );
                    }
                    return Err(SerializeError::Field(error));
                },
            }
            index = index + 1;
        }
        let expected = self.count();
        check_emitted(emitted, expected)
    }

    /// Writes the values of `instance` back to `storage`, field after field
    /// in declaration order.
    ///
    /// The first field that fails ends the persist with its error: no later
    /// field writes, and what the fields before it wrote stays written.
    pub fn persist(
        &self,
        instance: &Instance<F::Value>,
        program_id: &F::ProgramId,
        storage: &mut F::Storage,
    ) -> (done: Result<(), F::Error>)
        requires
            instance@.len() == self.kinds().len(),
        ensures
            match persist_all(self.kinds(), instance@, *program_id, old(storage)@).result {
                Ok(_) => done is Ok,
                Err(error) => done == Err::<(), F::Error>(error),
            },
            final(storage)@ == persist_all(
                self.kinds(),
                instance@,
                *program_id,
                old(storage)@,
            ).storage,
    {
        let ghost start = storage@;
        let ghost kinds = self.kinds();
        let mut index: usize = 0;
        while index < self.schema.len()
            invariant
                kinds == self.kinds(),
                kinds.len() == self.schema@.len(),
                instance@.len() == kinds.len(),
                index <= kinds.len(),
                start == old(storage)@,
                persist_prefix(kinds, instance@, *program_id, start, index as nat).result is Ok,
                persist_prefix(kinds, instance@, *program_id, start, index as nat).storage
                    == storage@,
            decreases kinds.len() - index,
        {
            let value = instance.value_at(index);
            match self.schema.field_at(index).persist(value, program_id, storage) {
                Ok(_) => {},
                Err(error) => {
                    proof {
                        lemma_persist_stays_failed(
                            kinds,
                            instance@,
                            *program_id,
                            start,
                            (index + 1) as nat,
                            kinds.len(),
                        );
                    }
                    return Err(error);
                },
            }
            index = index + 1;
        }
        Ok(())
    }
}

/// Closes a serialization: hands `emitted` on when it holds `expected`
/// entries, and rejects it otherwise.
pub fn check_emitted<M, E>(emitted: Vec<M>, expected: usize) -> (metas: Result<
    Vec<M>,
    SerializeError<E>,
>)
    ensures
        emitted@.len() == expected ==> metas == Ok::<Vec<M>, SerializeError<E>>(emitted),
        emitted@.len() != expected ==> metas == Err::<Vec<M>, SerializeError<E>>(
            SerializeError::InvalidAccountData,
        ),
{
    if emitted.len() != expected {
        return Err(SerializeError::InvalidAccountData);
    }
    Ok(emitted)
}


} // verus!
