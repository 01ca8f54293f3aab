//! The five operations of the customer resource, run against a store held
//! in memory. Each one issues the statements of its operation and answers
//! with the response the controller decides. The identifier of a new
//! record and the current time are handed in by the caller.
use vstd::prelude::*;

use crate::controller::{
    carries, create_outcome, delete_outcome, fetch_outcome, first_empty_field, list_outcome,
    record_failure_text, reports_duplicate, reports_empty_field, reports_internal,
    reports_not_found, update_outcome, update_plan, validate_create,
};
use crate::model::{field_after, merged, CreateCustomerSchema, UpdateCustomerSchema};
use crate::response::ApiResponse;
use crate::store::{
    email_constraint, email_held_by_other, has_email, has_id, index_of, key_constraint,
    new_record, record_of, rows_wf, stamp_after, update_stamp, MemoryStore,
};

verus! {

/// Lists every record with their count.
pub fn get_customers(store: &MemoryStore) -> (r: ApiResponse)
    ensures
        r.status == 200,
        r.body is Customers,
        r.body->Customers_customers@ == store@,
        r.body->Customers_count == store@.len(),
{
    list_outcome(Ok(store.fetch_all()))
}

/// Creates a record from `body` under identifier `id`, created at `now`.
/// An empty field is refused first; a taken address or identifier is a
/// duplicate, naming the constraint. Nothing changes unless the record is
/// created.
pub fn create_customer(store: &mut MemoryStore, body: &CreateCustomerSchema, id: u128, now: i64) -> (r: ApiResponse)
    requires
        rows_wf(old(store)@),
    ensures
        rows_wf(final(store)@),
        r.status != 200 ==> final(store)@ == old(store)@,
        first_empty_field(*body) is Some ==> reports_empty_field(r, first_empty_field(*body)->Some_0),
        (first_empty_field(*body) is None && has_email(old(store)@, body.email@)) ==> reports_duplicate(
            r,
            email_constraint(),
        ),
        (first_empty_field(*body) is None && !has_email(old(store)@, body.email@) && has_id(
            old(store)@,
            id,
        )) ==> reports_duplicate(r, key_constraint()),
        (first_empty_field(*body) is None && !has_email(old(store)@, body.email@) && !has_id(
            old(store)@,
            id,
        )) ==> ({
            let c = new_record(*body, id, now);
            &&& carries(r, c)
            &&& final(store)@ == old(store)@.push(c)
            &&& has_id(final(store)@, id) && record_of(final(store)@, id) == c
        }),
{
    match validate_create(body) {
        Err(resp) => resp,
        Ok(()) => create_outcome(store.insert(body, id, now)),
    }
}

/// The record with identifier `id`, or not-found.
pub fn get_customer_by_id(store: &MemoryStore, id: u128) -> (r: ApiResponse)
    requires
        rows_wf(store@),
    ensures
        has_id(store@, id) ==> carries(r, record_of(store@, id)),
        !has_id(store@, id) ==> reports_not_found(r, id),
{
    fetch_outcome(id, store.fetch_one(id))
}

/// Updates the record `id` at wall-clock time `now`: fetches it, keeps each
/// field that `body` leaves out, and writes the result with the update time
/// `update_stamp(record, now)`. A missing record is not-found and nothing
/// is written; an address held by another record is a duplicate. Nothing
/// changes unless the record is written.
pub fn update_customer(store: &mut MemoryStore, id: u128, body: &UpdateCustomerSchema, now: i64) -> (r: ApiResponse)
    requires
        rows_wf(old(store)@),
    ensures
        rows_wf(final(store)@),
        r.status != 200 ==> final(store)@ == old(store)@,
        !has_id(old(store)@, id) ==> reports_not_found(r, id),
        (has_id(old(store)@, id) && email_held_by_other(
            old(store)@,
            field_after(body.email, record_of(old(store)@, id).email)@,
            id,
        )) ==> reports_duplicate(r, email_constraint()),
        (has_id(old(store)@, id) && !email_held_by_other(
            old(store)@,
            field_after(body.email, record_of(old(store)@, id).email)@,
            id,
        ) && update_stamp(record_of(old(store)@, id), now) is None) ==> reports_internal(
            r,
            record_failure_text(),
        ),
        (has_id(old(store)@, id) && !email_held_by_other(
            old(store)@,
            field_after(body.email, record_of(old(store)@, id).email)@,
            id,
        ) && update_stamp(record_of(old(store)@, id), now) is Some) ==> ({
            let before = record_of(old(store)@, id);
            let u = merged(before, *body, update_stamp(before, now)->Some_0);
            &&& carries(r, u)
            &&& final(store)@ == old(store)@.update(index_of(old(store)@, id), u)
        }),
{
    let fetched = store.fetch_one(id);
    let stamp = match &fetched {
        Ok(existing) => match stamp_after(existing, now) {
            Some(t) => t,
            None => now,
        },
        Err(_) => now,
    };
    match update_plan(id, fetched, body, stamp) {
        Err(resp) => resp,
        Ok(values) => update_outcome(id, store.update(&values, now)),
    }
}

/// Deletes the record `id`: no content when it went, not-found when there
/// was none, never an internal failure.
pub fn delete_customer(store: &mut MemoryStore, id: u128) -> (r: ApiResponse)
    requires
        rows_wf(old(store)@),
    ensures
        rows_wf(final(store)@),
        has_id(old(store)@, id) ==> r.status == 204 && r.body is Empty && final(store)@
            == old(store)@.remove(index_of(old(store)@, id)),
        !has_id(old(store)@, id) ==> reports_not_found(r, id) && final(store)@ == old(store)@,
{
    let removed = store.delete(id);
    delete_outcome(id, Ok(removed))
}

} // verus!
