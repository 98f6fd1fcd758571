//! The mathematical model of a composition: what each composed procedure
//! comes to, over the specification functions of the fields.

use vstd::prelude::*;
use crate::capability::{FieldCapability, Outcome, Written};
use crate::error::SerializeError;

verus! {

/// The sum of the counts of `kinds`.
pub open spec fn count_sum<F: FieldCapability>(kinds: Seq<F>) -> nat
    decreases kinds.len(),
{
    if kinds.len() == 0 {
        0
    } else {
        count_sum(kinds.drop_last()) + kinds.last().count_spec()
    }
}

/// The dependencies of `kinds`, field after field.
pub open spec fn dependencies_concat<F: FieldCapability>(kinds: Seq<F>) -> Seq<F::Dependency> {
    kinds.map_values(|kind: F| kind.dependencies_spec()).flatten()
}

/// A parse after its first `visited` fields, on a cursor that had `accounts`
/// in front of it at the start: the values so far, or the first error, and
/// the entries taken.
///
/// Each field finds in front of the cursor what the fields before it left,
/// and nothing happens after the first failure.
pub open spec fn parse_prefix<F: FieldCapability>(
    kinds: Seq<F>,
    program_id: F::ProgramId,
    data: F::Data,
    accounts: Seq<F::Account>,
    visited: nat,
) -> Outcome<Seq<<F::Value as View>::V>, F::Error>
    decreases visited,
{
    if visited == 0 {
        Outcome { result: Ok(Seq::empty()), taken: 0 }
    } else {
        let before = parse_prefix(kinds, program_id, data, accounts, (visited - 1) as nat);
        match before.result {
            Err(_) => before,
            Ok(values) => {
                let step = kinds[visited - 1].parse_spec(
                    program_id,
                    data,
                    accounts.skip(before.taken as int),
                );
                Outcome {
                    result: match step.result {
                        Ok(value) => Ok(values.push(value)),
                        Err(error) => Err(error),
                    },
                    taken: before.taken + step.taken,
                }
            },
        }
    }
}

/// What the field at `index` comes to in a parse: it finds in front of the
/// cursor what the fields before it left.
pub open spec fn parse_step<F: FieldCapability>(
    kinds: Seq<F>,
    program_id: F::ProgramId,
    data: F::Data,
    accounts: Seq<F::Account>,
    index: int,
) -> Outcome<<F::Value as View>::V, F::Error> {
    kinds[index].parse_spec(
        program_id,
        data,
        accounts.skip(parse_prefix(kinds, program_id, data, accounts, index as nat).taken as int),
    )
}

/// The parse of a whole schema.
pub open spec fn parse_all<F: FieldCapability>(
    kinds: Seq<F>,
    program_id: F::ProgramId,
    data: F::Data,
    accounts: Seq<F::Account>,
) -> Outcome<Seq<<F::Value as View>::V>, F::Error> {
    parse_prefix(kinds, program_id, data, accounts, kinds.len())
}

/// A serialization after its first `visited` fields, on a cursor that had
/// `accounts` in front of it at the start: the entries emitted so far, field
/// after field, or the first error, and the entries taken.
pub open spec fn serialize_prefix<F: FieldCapability>(
    kinds: Seq<F>,
    accounts: Seq<F::Account>,
    visited: nat,
) -> Outcome<Seq<F::Meta>, F::Error>
    decreases visited,
{
    if visited == 0 {
        Outcome { result: Ok(Seq::empty()), taken: 0 }
    } else {
        let before = serialize_prefix(kinds, accounts, (visited - 1) as nat);
        match before.result {
            Err(_) => before,
            Ok(emitted) => {
                let step = kinds[visited - 1].serialize_spec(accounts.skip(before.taken as int));
                Outcome {
                    result: match step.result {
                        Ok(entries) => Ok(emitted + entries),
                        Err(error) => Err(error),
                    },
                    taken: before.taken + step.taken,
                }
            },
        }
    }
}

/// What the field at `index` comes to in a serialization: it finds in
/// front of the cursor what the fields before it left.
pub open spec fn serialize_step<F: FieldCapability>(
    kinds: Seq<F>,
    accounts: Seq<F::Account>,
    index: int,
) -> Outcome<Seq<F::Meta>, F::Error> {
    kinds[index].serialize_spec(
        accounts.skip(serialize_prefix(kinds, accounts, index as nat).taken as int),
    )
}

/// The check that closes a serialization: the entries are `expected` many,
/// or the data is invalid.
pub open spec fn checked<M, E>(emitted: Seq<M>, expected: nat) -> Result<
    Seq<M>,
    SerializeError<E>,
> {
    if emitted.len() == expected {
        Ok(emitted)
    } else {
        Err(SerializeError::InvalidAccountData)
    }
}

/// The serialization of a whole schema: the entries of all fields, checked
/// against the count of the schema, or the error of the first field that
/// failed.
pub open spec fn serialize_all<F: FieldCapability>(
    kinds: Seq<F>,
    accounts: Seq<F::Account>,
) -> Outcome<Seq<F::Meta>, SerializeError<F::Error>> {
    let folded = serialize_prefix(kinds, accounts, kinds.len());
    Outcome {
        result: match folded.result {
            Ok(emitted) => checked(emitted, count_sum(kinds)),
            Err(error) => Err(SerializeError::Field(error)),
        },
        taken: folded.taken,
    }
}

/// A persist after its first `visited` fields, from `storage`: whether a
/// field failed, and the storage as the visited fields left it.
///
/// Each field writes to the storage that the fields before it left; what
/// they wrote stays written when a later field fails.
pub open spec fn persist_prefix<F: FieldCapability>(
    kinds: Seq<F>,
    values: Seq<<F::Value as View>::V>,
    program_id: F::ProgramId,
    storage: <F::Storage as View>::V,
    visited: nat,
) -> Written<<F::Storage as View>::V, F::Error>
    decreases visited,
{
    if visited == 0 {
        Written { result: Ok(()), storage }
    } else {
        let before = persist_prefix(kinds, values, program_id, storage, (visited - 1) as nat);
        match before.result {
            Err(_) => before,
            Ok(_) => kinds[visited - 1].persist_spec(
                values[visited - 1],
                program_id,
                before.storage,
            ),
        }
    }
}

/// The persist of a whole schema.
pub open spec fn persist_all<F: FieldCapability>(
    kinds: Seq<F>,
    values: Seq<<F::Value as View>::V>,
    program_id: F::ProgramId,
    storage: <F::Storage as View>::V,
) -> Written<<F::Storage as View>::V, F::Error> {
    persist_prefix(kinds, values, program_id, storage, kinds.len())
}

/// Nothing happens after the first failure of a parse.
pub proof fn lemma_parse_stays_failed<F: FieldCapability>(
    kinds: Seq<F>,
    program_id: F::ProgramId,
    data: F::Data,
    accounts: Seq<F::Account>,
    failed: nat,
    visited: nat,
)
    requires
        parse_prefix(kinds, program_id, data, accounts, failed).result is Err,
        failed <= visited,
    ensures
        parse_prefix(kinds, program_id, data, accounts, visited) == parse_prefix(
            kinds,
            program_id,
            data,
            accounts,
            failed,
        ),
    decreases visited,
{
    if failed < visited {
        lemma_parse_stays_failed(kinds, program_id, data, accounts, failed, (visited - 1) as nat);
    }
}

/// Nothing happens after the first failure of a serialization.
pub proof fn lemma_serialize_stays_failed<F: FieldCapability>(
    kinds: Seq<F>,
    accounts: Seq<F::Account>,
    failed: nat,
    visited: nat,
)
    requires
        serialize_prefix(kinds, accounts, failed).result is Err,
        failed <= visited,
    ensures
        serialize_prefix(kinds, accounts, visited) == serialize_prefix(kinds, accounts, failed),
    decreases visited,
{
    if failed < visited {
        lemma_serialize_stays_failed(kinds, accounts, failed, (visited - 1) as nat);
    }
}

/// Nothing happens after the first failure of a persist.
pub proof fn lemma_persist_stays_failed<F: FieldCapability>(
    kinds: Seq<F>,
    values: Seq<<F::Value as View>::V>,
    program_id: F::ProgramId,
    storage: <F::Storage as View>::V,
    failed: nat,
    visited: nat,
)
    requires
        persist_prefix(kinds, values, program_id, storage, failed).result is Err,
        failed <= visited,
    ensures
        persist_prefix(kinds, values, program_id, storage, visited) == persist_prefix(
            kinds,
            values,
            program_id,
            storage,
            failed,
        ),
    decreases visited,
{
    if failed < visited {
        lemma_persist_stays_failed(
            kinds,
            values,
            program_id,
            storage,
            failed,
            (visited - 1) as nat,
        );
    }
}

/// The sum over a prefix is at most the sum over the whole.
pub proof fn lemma_count_sum_grows<F: FieldCapability>(kinds: Seq<F>, n: int)
    requires
        0 <= n <= kinds.len(),
    ensures
        count_sum(kinds.take(n)) <= count_sum(kinds),
    decreases kinds.len(),
{
    if n < kinds.len() {
        assert(kinds.drop_last().take(n) == kinds.take(n));
        lemma_count_sum_grows(kinds.drop_last(), n);
    } else {
        assert(kinds.take(n) == kinds);
    }
}

/// The dependencies of one field more are those of the fields before it,
/// followed by its own.
pub proof fn lemma_dependencies_concat_push<F: FieldCapability>(kinds: Seq<F>, index: int)
    requires
        0 <= index < kinds.len(),
    ensures
        dependencies_concat(kinds.take(index + 1)) == dependencies_concat(kinds.take(index))
            + kinds[index].dependencies_spec(),
{
    let each = |kind: F| kind.dependencies_spec();
    assert(kinds.take(index + 1).map_values(each) == kinds.take(index).map_values(each).push(
        kinds[index].dependencies_spec(),
    ));
    kinds.take(index).map_values(each).lemma_flatten_push(kinds[index].dependencies_spec());
}

/// The first fields of a parse are parsed as if the schema ended with them.
pub proof fn lemma_parse_prefix_alone<F: FieldCapability>(
    kinds: Seq<F>,
    program_id: F::ProgramId,
    data: F::Data,
    accounts: Seq<F::Account>,
    fields: int,
    visited: nat,
)
    requires
        visited <= fields <= kinds.len(),
    ensures
        parse_prefix(kinds.take(fields), program_id, data, accounts, visited) == parse_prefix(
            kinds,
            program_id,
            data,
            accounts,
            visited,
        ),
    decreases visited,
{
    if visited > 0 {
        lemma_parse_prefix_alone(kinds, program_id, data, accounts, fields, (visited - 1) as nat);
    }
}

/// A parse that has not failed has one value for each field visited.
pub proof fn lemma_parse_length<F: FieldCapability>(
    kinds: Seq<F>,
    program_id: F::ProgramId,
    data: F::Data,
    accounts: Seq<F::Account>,
    visited: nat,
)
    ensures
        parse_prefix(kinds, program_id, data, accounts, visited).result matches Ok(values)
            ==> values.len() == visited,
    decreases visited,
{
    if visited > 0 {
        lemma_parse_length(kinds, program_id, data, accounts, (visited - 1) as nat);
    }
}

/// The first fields of a serialization are visited as if the schema ended
/// with them.
pub proof fn lemma_serialize_prefix_alone<F: FieldCapability>(
    kinds: Seq<F>,
    accounts: Seq<F::Account>,
    fields: int,
    visited: nat,
)
    requires
        visited <= fields <= kinds.len(),
    ensures
        serialize_prefix(kinds.take(fields), accounts, visited) == serialize_prefix(
            kinds,
            accounts,
            visited,
        ),
    decreases visited,
{
    if visited > 0 {
        lemma_serialize_prefix_alone(kinds, accounts, fields, (visited - 1) as nat);
    }
}

/// The first fields of a persist write as if the schema ended with them.
pub proof fn lemma_persist_prefix_alone<F: FieldCapability>(
    kinds: Seq<F>,
    values: Seq<<F::Value as View>::V>,
    program_id: F::ProgramId,
    storage: <F::Storage as View>::V,
    fields: int,
    visited: nat,
)
    requires
        visited <= fields <= kinds.len(),
    ensures
        persist_prefix(kinds.take(fields), values, program_id, storage, visited) == persist_prefix(
            kinds,
            values,
            program_id,
            storage,
            visited,
        ),
    decreases visited,
{
    if visited > 0 {
        lemma_persist_prefix_alone(
            kinds,
            values,
            program_id,
            storage,
            fields,
            (visited - 1) as nat,
        );
    }
}

} // verus!
