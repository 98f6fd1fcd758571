//! What holds of every composition, whatever its fields.

use vstd::prelude::*;
use crate::capability::{FieldCapability, Outcome};
use crate::compose::FromAccounts;
use crate::error::SerializeError;
use crate::model::{
    count_sum, dependencies_concat, lemma_parse_length, lemma_parse_prefix_alone,
    lemma_parse_stays_failed, lemma_persist_prefix_alone, lemma_persist_stays_failed,
    lemma_serialize_prefix_alone, lemma_serialize_stays_failed, parse_all, parse_prefix,
    parse_step, persist_all, serialize_all, serialize_prefix, serialize_step,
};

verus! {

/// Order preservation: a parse visits the fields in declaration order.
///
/// The field at `index` is parsed after the fields before it and from what
/// they left in front of the cursor, which depends on no later field. Its
/// value, in a parse that succeeds, stands at `index` among the values.
pub proof fn parse_follows_declaration_order<F: FieldCapability>(
    kinds: Seq<F>,
    program_id: F::ProgramId,
    data: F::Data,
    accounts: Seq<F::Account>,
    index: int,
)
    requires
        0 <= index < kinds.len(),
    ensures
        ({
            let before = parse_all(kinds.take(index), program_id, data, accounts);
            let own = kinds[index].parse_spec(program_id, data, accounts.skip(before.taken as int));
            let through = parse_all(kinds.take(index + 1), program_id, data, accounts);
            let whole = parse_all(kinds, program_id, data, accounts);
            &&& before.result matches Ok(values) ==> through == (Outcome {
                result: match own.result {
                    Ok(value) => Ok(values.push(value)),
                    Err(error) => Err(error),
                },
                taken: before.taken + own.taken,
            })
            &&& before.result is Err ==> through == before
            &&& whole.result matches Ok(values) ==> {
                &&& values.len() == kinds.len()
                &&& before.result == Ok::<Seq<<F::Value as View>::V>, F::Error>(values.take(index))
                &&& own.result == Ok::<<F::Value as View>::V, F::Error>(values[index])
            }
        }),
{
    lemma_parse_prefix_alone(kinds, program_id, data, accounts, index, index as nat);
    lemma_parse_prefix_alone(kinds, program_id, data, accounts, index + 1, (index + 1) as nat);
    if parse_all(kinds, program_id, data, accounts).result is Ok {
        lemma_parse_values(kinds, program_id, data, accounts, kinds.len(), index);
    }
}

/// In a parse that has not failed after `visited` fields, no field before
/// has failed, and each value so far is that of its field.
proof fn lemma_parse_values<F: FieldCapability>(
    kinds: Seq<F>,
    program_id: F::ProgramId,
    data: F::Data,
    accounts: Seq<F::Account>,
    visited: nat,
    index: int,
)
    requires
        0 <= index < visited <= kinds.len(),
        parse_prefix(kinds, program_id, data, accounts, visited).result is Ok,
    ensures
        ({
            let values = parse_prefix(kinds, program_id, data, accounts, visited).result->Ok_0;
            let before = parse_prefix(kinds, program_id, data, accounts, index as nat);
            let own = kinds[index].parse_spec(program_id, data, accounts.skip(before.taken as int));
            &&& values.len() == visited
            &&& before.result == Ok::<Seq<<F::Value as View>::V>, F::Error>(values.take(index))
            &&& own.result == Ok::<<F::Value as View>::V, F::Error>(values[index])
        }),
    decreases visited,
{
    let last = parse_prefix(kinds, program_id, data, accounts, (visited - 1) as nat);
    let values = parse_prefix(kinds, program_id, data, accounts, visited).result->Ok_0;
    lemma_parse_length(kinds, program_id, data, accounts, (visited - 1) as nat);
    if index < visited - 1 {
        lemma_parse_values(kinds, program_id, data, accounts, (visited - 1) as nat, index);
        assert(values.take(index) == last.result->Ok_0.take(index));
    } else {
        assert(values.take(index) == last.result->Ok_0);
    }
}

/// Fail-fast: a parse ends with the first field that fails.
///
/// Where the fields before `index` succeed and the field at `index` fails,
/// the parse returns the error of that field as it is and leaves the cursor
/// where that field left it. The fields after `index` have no part in it:
/// the parse is that of the schema that ends with the failing field.
pub proof fn parse_fails_fast<F: FieldCapability>(
    kinds: Seq<F>,
    program_id: F::ProgramId,
    data: F::Data,
    accounts: Seq<F::Account>,
    index: int,
)
    requires
        0 <= index < kinds.len(),
        parse_all(kinds.take(index), program_id, data, accounts).result is Ok,
        kinds[index].parse_spec(
            program_id,
            data,
            accounts.skip(parse_all(kinds.take(index), program_id, data, accounts).taken as int),
        ).result is Err,
    ensures
        ({
            let before = parse_all(kinds.take(index), program_id, data, accounts);
            let own = kinds[index].parse_spec(program_id, data, accounts.skip(before.taken as int));
            let whole = parse_all(kinds, program_id, data, accounts);
            &&& whole.result == Err::<Seq<<F::Value as View>::V>, F::Error>(own.result->Err_0)
            &&& whole.taken == before.taken + own.taken
            &&& whole == parse_all(kinds.take(index + 1), program_id, data, accounts)
        }),
{
    lemma_parse_prefix_alone(kinds, program_id, data, accounts, index, index as nat);
    lemma_parse_prefix_alone(kinds, program_id, data, accounts, index + 1, (index + 1) as nat);
    lemma_parse_stays_failed(
        kinds,
        program_id,
        data,
        accounts,
        (index + 1) as nat,
        kinds.len(),
    );
}

/// Where every field takes as many entries as it counts for, a parse that
/// succeeds moves the cursor forward by the count of the schema.
pub proof fn parse_takes_count<F: FieldCapability>(
    kinds: Seq<F>,
    program_id: F::ProgramId,
    data: F::Data,
    accounts: Seq<F::Account>,
)
    requires
        parse_all(kinds, program_id, data, accounts).result is Ok,
        forall|index: int|
            0 <= index < kinds.len() ==> (#[trigger] parse_step(
                kinds,
                program_id,
                data,
                accounts,
                index,
            )).taken == kinds[index].count_spec(),
    ensures
        parse_all(kinds, program_id, data, accounts).taken == count_sum(kinds),
{
    lemma_parse_takes_count(kinds, program_id, data, accounts, kinds.len());
    assert(kinds.take(kinds.len() as int) == kinds);
}

proof fn lemma_parse_takes_count<F: FieldCapability>(
    kinds: Seq<F>,
    program_id: F::ProgramId,
    data: F::Data,
    accounts: Seq<F::Account>,
    visited: nat,
)
    requires
        visited <= kinds.len(),
        parse_prefix(kinds, program_id, data, accounts, visited).result is Ok,
        forall|index: int|
            0 <= index < kinds.len() ==> (#[trigger] parse_step(
                kinds,
                program_id,
                data,
                accounts,
                index,
            )).taken == kinds[index].count_spec(),
    ensures
        parse_prefix(kinds, program_id, data, accounts, visited).taken == count_sum(
            kinds.take(visited as int),
        ),
    decreases visited,
{
    if visited > 0 {
        lemma_parse_takes_count(kinds, program_id, data, accounts, (visited - 1) as nat);
        assert(parse_step(kinds, program_id, data, accounts, visited - 1).taken == kinds[visited
            - 1].count_spec());
        assert(kinds.take(visited as int).drop_last() == kinds.take(visited - 1));
    }
}

/// Count additivity: the count of a schema is the sum of the counts of its
/// fields, so the count of two schemas put together is the sum of their
/// counts, and the count of a single field is its own.
pub proof fn count_is_additive<F: FieldCapability>(front: Seq<F>, back: Seq<F>)
    ensures
        count_sum(front + back) == count_sum(front) + count_sum(back),
        count_sum(Seq::<F>::empty()) == 0,
        forall|kind: F| count_sum(seq![kind]) == kind.count_spec(),
    decreases back.len(),
{
    assert forall|kind: F| count_sum(seq![kind]) == kind.count_spec() by {
        assert(count_sum(seq![kind].drop_last()) == 0);
    }
    if back.len() == 0 {
    } else {
        count_is_additive(front, back.drop_last());
        assert((front + back).drop_last() == front + back.drop_last());
    }
}

/// Dependency concatenation order: the dependencies of a schema are those
/// of its fields, field after field, each list as its field gives it; none
/// is dropped and none is moved.
pub proof fn dependencies_keep_declaration_order<F: FieldCapability>(front: Seq<F>, back: Seq<F>)
    ensures
        dependencies_concat(front + back) == dependencies_concat(front) + dependencies_concat(
            back,
        ),
        dependencies_concat(Seq::<F>::empty()) == Seq::<F::Dependency>::empty(),
        forall|kind: F| dependencies_concat(seq![kind]) == kind.dependencies_spec(),
{
    let each = |kind: F| kind.dependencies_spec();
    assert((front + back).map_values(each) == front.map_values(each) + back.map_values(each));
    vstd::seq_lib::lemma_flatten_concat(front.map_values(each), back.map_values(each));
    assert forall|kind: F| dependencies_concat(seq![kind]) == kind.dependencies_spec() by {
        assert(seq![kind].map_values(each) == seq![kind.dependencies_spec()]);
        seq![kind.dependencies_spec()].lemma_flatten_one_element();
    }
}

/// A serialization ends with the first field that fails.
///
/// Where the fields before `index` succeed and the field at `index` fails,
/// the serialization fails with the error of that field and leaves the
/// cursor where that field left it; the fields after `index` have no part
/// in it, and the entries are not counted.
pub proof fn serialize_fails_fast<F: FieldCapability>(
    kinds: Seq<F>,
    accounts: Seq<F::Account>,
    index: int,
)
    requires
        0 <= index < kinds.len(),
        serialize_prefix(kinds, accounts, index as nat).result is Ok,
        serialize_step(kinds, accounts, index).result is Err,
    ensures
        ({
            let before = serialize_prefix(kinds, accounts, index as nat);
            let own = serialize_step(kinds, accounts, index);
            let whole = serialize_all(kinds, accounts);
            &&& whole.result == Err::<Seq<F::Meta>, SerializeError<F::Error>>(
                SerializeError::Field(own.result->Err_0),
            )
            &&& whole.taken == before.taken + own.taken
            &&& whole == serialize_all(kinds.take(index + 1), accounts)
        }),
{
    lemma_serialize_prefix_alone(kinds, accounts, index + 1, (index + 1) as nat);
    lemma_serialize_stays_failed(kinds, accounts, (index + 1) as nat, kinds.len());
}

/// Serialize/count consistency: a serialization never succeeds with a
/// number of entries other than the count of the schema.
///
/// In particular, where no field fails and every field but one emits as
/// many entries as it counts for, the one that does not is caught: the
/// serialization fails, and with the error of the composition itself.
pub proof fn serialize_catches_inconsistent_field<F: FieldCapability>(
    kinds: Seq<F>,
    accounts: Seq<F::Account>,
    culprit: int,
)
    requires
        0 <= culprit < kinds.len(),
        serialize_prefix(kinds, accounts, kinds.len()).result is Ok,
        forall|index: int|
            0 <= index < kinds.len() && index != culprit ==> (#[trigger] serialize_step(
                kinds,
                accounts,
                index,
            )).result->Ok_0.len() == kinds[index].count_spec(),
        serialize_step(kinds, accounts, culprit).result->Ok_0.len()
            != kinds[culprit].count_spec(),
    ensures
        serialize_all(kinds, accounts).result == Err::<Seq<F::Meta>, SerializeError<F::Error>>(
            SerializeError::InvalidAccountData,
        ),
{
    lemma_serialize_emitted(kinds, accounts, culprit, kinds.len());
    assert(kinds.take(kinds.len() as int) == kinds);
}

/// A serialization that succeeds emits as many entries as the schema counts
/// for.
pub proof fn serialize_emits_count<F: FieldCapability>(kinds: Seq<F>, accounts: Seq<F::Account>)
    ensures
        serialize_all(kinds, accounts).result matches Ok(entries) ==> entries.len() == count_sum(
            kinds,
        ),
{
}

/// How many entries the first `visited` fields emit, where all of them but
/// `culprit` emit what they count for.
proof fn lemma_serialize_emitted<F: FieldCapability>(
    kinds: Seq<F>,
    accounts: Seq<F::Account>,
    culprit: int,
    visited: nat,
)
    requires
        0 <= culprit < kinds.len(),
        visited <= kinds.len(),
        serialize_prefix(kinds, accounts, visited).result is Ok,
        forall|index: int|
            0 <= index < kinds.len() && index != culprit ==> (#[trigger] serialize_step(
                kinds,
                accounts,
                index,
            )).result->Ok_0.len() == kinds[index].count_spec(),
    ensures
        serialize_prefix(kinds, accounts, visited).result->Ok_0.len() == count_sum(
            kinds.take(visited as int),
        ) + if culprit < visited {
            serialize_step(kinds, accounts, culprit).result->Ok_0.len()
                - kinds[culprit].count_spec()
        } else {
            0
        },
    decreases visited,
{
    if visited > 0 {
        lemma_serialize_emitted(kinds, accounts, culprit, (visited - 1) as nat);
        assert(visited - 1 != culprit ==> serialize_step(
            kinds,
            accounts,
            visited - 1,
        ).result->Ok_0.len() == kinds[visited - 1].count_spec());
        assert(kinds.take(visited as int).drop_last() == kinds.take(visited - 1));
    }
}

/// Persist fail-fast: a persist ends with the first field that fails.
///
/// Where the fields before `index` succeed and the field at `index` fails,
/// the persist returns the error of that field as it is, and leaves the
/// storage as that field left it: what the fields before it wrote is there,
/// and no later field has written.
pub proof fn persist_fails_fast<F: FieldCapability>(
    kinds: Seq<F>,
    values: Seq<<F::Value as View>::V>,
    program_id: F::ProgramId,
    storage: <F::Storage as View>::V,
    index: int,
)
    requires
        0 <= index < kinds.len(),
        persist_all(kinds.take(index), values, program_id, storage).result is Ok,
        kinds[index].persist_spec(
            values[index],
            program_id,
            persist_all(kinds.take(index), values, program_id, storage).storage,
        ).result is Err,
    ensures
        persist_all(kinds, values, program_id, storage) == kinds[index].persist_spec(
            values[index],
            program_id,
            persist_all(kinds.take(index), values, program_id, storage).storage,
        ),
        persist_all(kinds, values, program_id, storage) == persist_all(
            kinds.take(index + 1),
            values,
            program_id,
            storage,
        ),
{
    lemma_persist_prefix_alone(kinds, values, program_id, storage, index, index as nat);
    lemma_persist_prefix_alone(kinds, values, program_id, storage, index + 1, (index + 1) as nat);
    lemma_persist_stays_failed(
        kinds,
        values,
        program_id,
        storage,
        (index + 1) as nat,
        kinds.len(),
    );
}

/// Idempotence of counting: two calls of `count` on one context return the
/// same number.
pub proof fn count_is_idempotent<F: FieldCapability>(
    context: &FromAccounts<F>,
    first: usize,
    second: usize,
)
    requires
        call_ensures(FromAccounts::<F>::count, (context,), first),
        call_ensures(FromAccounts::<F>::count, (context,), second),
    ensures
        first == second,
{
}

/// Idempotence of listing dependencies: two calls of `dependencies` on one
/// context return the same list.
pub proof fn dependencies_are_idempotent<F: FieldCapability>(
    context: &FromAccounts<F>,
    first: Vec<F::Dependency>,
    second: Vec<F::Dependency>,
)
    requires
        call_ensures(FromAccounts::<F>::dependencies, (context,), first),
        call_ensures(FromAccounts::<F>::dependencies, (context,), second),
    ensures
        first@ == second@,
{
}

} // verus!
