//! Properties that relate several operations, stated over the same models
//! that the operations' contracts use.
use vstd::prelude::*;

use crate::controller::first_empty_field;
use crate::model::{merged, CreateCustomerSchema, CustomerModel, UpdateCustomerSchema};
use crate::store::{
    email_count, email_held_by_other, has_email, has_id, index_of, last_write, lemma_index_of,
    lemma_push_wf, lemma_remove_wf, new_record, record_of, rows_wf, stamped, update_stamp,
};

verus! {

proof fn lemma_no_email_count(rows: Seq<CustomerModel>, email: Seq<char>)
    requires
        !has_email(rows, email),
    ensures
        email_count(rows, email) == 0,
    decreases rows.len(),
{
    if rows.len() > 0 {
        let rest = rows.drop_last();
        assert forall|i: int| 0 <= i < rest.len() implies (#[trigger] rest[i]).email@ != email by {
            assert(rows[i] == rest[i]);
        }
        assert(rows[rows.len() - 1].email@ != email);
        lemma_no_email_count(rest, email);
    }
}

/// A record created from a valid request with a fresh address and a fresh
/// identifier is found again by its identifier, with the request's four
/// fields, and with no update time.
pub proof fn law_create_then_get(
    rows: Seq<CustomerModel>,
    body: CreateCustomerSchema,
    id: u128,
    now: i64,
)
    requires
        rows_wf(rows),
        first_empty_field(body) is None,
        !has_email(rows, body.email@),
        !has_id(rows, id),
    ensures
        ({
            let c = new_record(body, id, now);
            let after = rows.push(c);
            &&& rows_wf(after)
            &&& has_id(after, id)
            &&& record_of(after, id) == c
            &&& c.name == body.name && c.email == body.email
            &&& c.password == body.password && c.birthday == body.birthday
            &&& c.created_at == Some(now)
            &&& c.updated_at is None
        }),
{
    lemma_push_wf(rows, new_record(body, id, now));
}

/// After a record is created with some address, the same address is taken,
/// so a second create with it is refused as a duplicate and changes
/// nothing; exactly one record holds the address.
pub proof fn law_duplicate_email(
    rows: Seq<CustomerModel>,
    first: CreateCustomerSchema,
    id: u128,
    now: i64,
    second: CreateCustomerSchema,
)
    requires
        rows_wf(rows),
        first_empty_field(first) is None,
        !has_email(rows, first.email@),
        !has_id(rows, id),
        second.email@ == first.email@,
    ensures
        ({
            let after = rows.push(new_record(first, id, now));
            &&& has_email(after, second.email@)
            &&& email_count(after, first.email@) == 1
        }),
{
    let c = new_record(first, id, now);
    let after = rows.push(c);
    assert(after[rows.len() as int] == c);
    assert(after.drop_last() =~= rows);
    lemma_no_email_count(rows, first.email@);
}

/// An update that supplies only a name keeps the address, password,
/// birthday and creation time, is not refused as a duplicate, takes the
/// current time when that is past the record's latest write, and moves the
/// update time strictly past both earlier timestamps of the record.
pub proof fn law_name_only_update(
    rows: Seq<CustomerModel>,
    id: u128,
    body: UpdateCustomerSchema,
    now: i64,
)
    requires
        rows_wf(rows),
        has_id(rows, id),
        body.name is Some,
        body.email is None,
        body.password is None,
        body.birthday is None,
        update_stamp(record_of(rows, id), now) is Some,
    ensures
        ({
            let before = record_of(rows, id);
            let stamp = update_stamp(before, now)->Some_0;
            let after = merged(before, body, stamp);
            &&& !email_held_by_other(rows, after.email@, id)
            &&& after.name == body.name->Some_0
            &&& after.email == before.email
            &&& after.password == before.password
            &&& after.birthday == before.birthday
            &&& after.created_at == before.created_at
            &&& now > last_write(before) ==> after.updated_at == Some(now)
            &&& after.updated_at->Some_0 > before.created_at->Some_0
            &&& before.updated_at is Some ==> after.updated_at->Some_0 > before.updated_at->Some_0
        }),
{
    let k = index_of(rows, id);
    lemma_index_of(rows, k);
    assert(stamped(rows[k]));
    let before = rows[k];
    if email_held_by_other(rows, before.email@, id) {
        let j = choose|j: int|
            0 <= j < rows.len() && (#[trigger] rows[j]).email@ == before.email@ && rows[j].id != id;
        assert(rows[j].id != rows[k].id);
    }
}

/// After a delete of an existing record, the identifier is no longer found
/// and one record fewer remains.
pub proof fn law_delete_then_get(rows: Seq<CustomerModel>, id: u128)
    requires
        rows_wf(rows),
        has_id(rows, id),
    ensures
        ({
            let after = rows.remove(index_of(rows, id));
            &&& rows_wf(after)
            &&& !has_id(after, id)
            &&& after.len() == rows.len() - 1
        }),
{
    let k = index_of(rows, id);
    lemma_index_of(rows, k);
    let after = rows.remove(k);
    lemma_remove_wf(rows, k);
    assert forall|i: int| 0 <= i < after.len() implies (#[trigger] after[i]).id != id by {
        let a = if i < k {
            i
        } else {
            i + 1
        };
        assert(after[i] == rows[a]);
    }
}

} // verus!
