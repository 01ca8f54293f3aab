//! The decisions of each operation, independent of which store runs the
//! statements: what a request must hold, and how a store outcome becomes a
//! response.
use vstd::prelude::*;
use vstd::string::*;

use crate::error::{duplicate_message, not_found_message, ApiError, StoreFailure};
use crate::model::{merge_update, merged, CreateCustomerSchema, CustomerModel, UpdateCustomerSchema};
use crate::response::{
    customer_response, customers_response, failure_response, no_content_response, ApiResponse,
    Envelope,
};

verus! {

/// `r` is a 404 "fail" response naming `id`.
pub open spec fn reports_not_found(r: ApiResponse, id: u128) -> bool {
    r.status == 404 && r.body is Fail && r.body->Fail_message@ == not_found_message(id)
}

/// `r` is a 400 "fail" response for a conflict on the unique constraint
/// named `constraint` (empty when unnamed).
pub open spec fn reports_duplicate(r: ApiResponse, constraint: Seq<char>) -> bool {
    r.status == 400 && r.body is Fail && r.body->Fail_message@ == duplicate_message(constraint)
}

/// The name of the constraint a uniqueness conflict reports; empty when unnamed.
pub open spec fn conflict_name(constraint: Option<String>) -> Seq<char> {
    match constraint {
        Some(c) => c@,
        None => Seq::empty(),
    }
}

/// `r` is a 400 "fail" response saying that `field` was left empty.
pub open spec fn reports_empty_field(r: ApiResponse, field: Seq<char>) -> bool {
    r.status == 400 && r.body is Fail && r.body->Fail_message@ == field + ": "@ + "must not be empty"@
}

/// `r` is a 500 "error" response with the generic message `cause`.
pub open spec fn reports_internal(r: ApiResponse, cause: Seq<char>) -> bool {
    r.status == 500 && r.body is Error && r.body->Error_message@ == cause
}

/// `r` is a 200 response carrying `c`.
pub open spec fn carries(r: ApiResponse, c: CustomerModel) -> bool {
    r.status == 200 && r.body == (Envelope::Customer { customer: c })
}

/// The first field of a create request that is empty, in the order name,
/// email, password, birthday; `None` when all four are filled.
pub open spec fn first_empty_field(body: CreateCustomerSchema) -> Option<Seq<char>> {
    if body.name@.len() == 0 {
        Some("name"@)
    } else if body.email@.len() == 0 {
        Some("email"@)
    } else if body.password@.len() == 0 {
        Some("password"@)
    } else if body.birthday@.len() == 0 {
        Some("birthday"@)
    } else {
        None
    }
}

fn empty_field_error(field: &str) -> (r: ApiError)
    ensures
        r is ValidationFailure,
        r->ValidationFailure_field@ == field@,
        r->ValidationFailure_reason@ == "must not be empty"@,
{
    ApiError::ValidationFailure {
        field: String::from_str(field),
        reason: String::from_str("must not be empty"),
    }
}

/// Checks a create request: all four fields must be non-empty.
pub fn validate_create(body: &CreateCustomerSchema) -> (r: Result<(), ApiResponse>)
    ensures
        first_empty_field(*body) is None ==> r is Ok,
        first_empty_field(*body) is Some ==> r is Err && reports_empty_field(
            r->Err_0,
            first_empty_field(*body)->Some_0,
        ),
{
    let field = if body.name.as_str().unicode_len() == 0 {
        "name"
    } else if body.email.as_str().unicode_len() == 0 {
        "email"
    } else if body.password.as_str().unicode_len() == 0 {
        "password"
    } else if body.birthday.as_str().unicode_len() == 0 {
        "birthday"
    } else {
        return Ok(());
    };
    Err(failure_response(&empty_field_error(field)))
}

/// The generic message of a failed list.
pub open spec fn list_failure_text() -> Seq<char> {
    "Something bad happened while fetching the customers"@
}

/// The generic message of a failed single-record statement.
pub open spec fn record_failure_text() -> Seq<char> {
    "Something bad happened while handling the customer"@
}

fn internal(cause: &str) -> (r: ApiResponse)
    ensures
        reports_internal(r, cause@),
{
    failure_response(&ApiError::InternalFailure { cause: String::from_str(cause) })
}

fn not_found(id: u128) -> (r: ApiResponse)
    ensures
        reports_not_found(r, id),
{
    failure_response(&ApiError::NotFound { id })
}

fn duplicate(constraint: Option<String>) -> (r: ApiResponse)
    ensures
        reports_duplicate(r, conflict_name(constraint)),
{
    let field = match constraint {
        Some(c) => c,
        None => String::new(),
    };
    failure_response(&ApiError::DuplicateKey { field })
}

/// The response to a list statement's outcome.
pub fn list_outcome(result: Result<Vec<CustomerModel>, StoreFailure>) -> (r: ApiResponse)
    ensures
        result is Ok ==> r.status == 200 && r.body is Customers
            && r.body->Customers_customers@ == result->Ok_0@
            && r.body->Customers_count == result->Ok_0@.len(),
        result is Err ==> reports_internal(r, list_failure_text()),
{
    match result {
        Ok(customers) => customers_response(customers),
        Err(_) => internal("Something bad happened while fetching the customers"),
    }
}

/// The response to an insert statement's outcome: a uniqueness conflict is
/// a duplicate, anything else an internal failure.
pub fn create_outcome(result: Result<CustomerModel, StoreFailure>) -> (r: ApiResponse)
    ensures
        result is Ok ==> carries(r, result->Ok_0),
        (result is Err && result->Err_0 is UniqueViolation) ==> reports_duplicate(
            r,
            conflict_name(result->Err_0->UniqueViolation_constraint),
        ),
        (result is Err && !(result->Err_0 is UniqueViolation)) ==> reports_internal(
            r,
            record_failure_text(),
        ),
{
    match result {
        Ok(c) => customer_response(c),
        Err(StoreFailure::UniqueViolation { constraint }) => duplicate(constraint),
        Err(_) => internal("Something bad happened while handling the customer"),
    }
}

/// The response to a fetch of the record `id`: no row is not-found.
pub fn fetch_outcome(id: u128, result: Result<CustomerModel, StoreFailure>) -> (r: ApiResponse)
    ensures
        result is Ok ==> carries(r, result->Ok_0),
        (result is Err && result->Err_0 is RowNotFound) ==> reports_not_found(r, id),
        (result is Err && !(result->Err_0 is RowNotFound)) ==> reports_internal(
            r,
            record_failure_text(),
        ),
{
    match result {
        Ok(c) => customer_response(c),
        Err(StoreFailure::RowNotFound) => not_found(id),
        Err(_) => internal("Something bad happened while handling the customer"),
    }
}

/// First step of an update: from the fetched record, the record to write,
/// stamped with `stamp`; or the response that ends the update without a write.
pub fn update_plan(
    id: u128,
    fetched: Result<CustomerModel, StoreFailure>,
    body: &UpdateCustomerSchema,
    stamp: i64,
) -> (r: Result<CustomerModel, ApiResponse>)
    ensures
        fetched is Ok ==> r == Ok::<CustomerModel, ApiResponse>(merged(fetched->Ok_0, *body, stamp)),
        (fetched is Err && fetched->Err_0 is RowNotFound) ==> r is Err && reports_not_found(
            r->Err_0,
            id,
        ),
        (fetched is Err && !(fetched->Err_0 is RowNotFound)) ==> r is Err && reports_internal(
            r->Err_0,
            record_failure_text(),
        ),
{
    match fetched {
        Ok(existing) => Ok(merge_update(&existing, body, stamp)),
        Err(StoreFailure::RowNotFound) => Err(not_found(id)),
        Err(_) => Err(internal("Something bad happened while handling the customer")),
    }
}

/// Second step of an update: the response to the write's outcome. A row
/// that vanished is not-found; a uniqueness conflict is a duplicate.
pub fn update_outcome(id: u128, result: Result<CustomerModel, StoreFailure>) -> (r: ApiResponse)
    ensures
        result is Ok ==> carries(r, result->Ok_0),
        (result is Err && result->Err_0 is RowNotFound) ==> reports_not_found(r, id),
        (result is Err && result->Err_0 is UniqueViolation) ==> reports_duplicate(
            r,
            conflict_name(result->Err_0->UniqueViolation_constraint),
        ),
        (result is Err && result->Err_0 is Other) ==> reports_internal(r, record_failure_text()),
{
    match result {
        Ok(c) => customer_response(c),
        Err(StoreFailure::RowNotFound) => not_found(id),
        Err(StoreFailure::UniqueViolation { constraint }) => duplicate(constraint),
        Err(StoreFailure::Other { .. }) => internal(
            "Something bad happened while handling the customer",
        ),
    }
}

/// The response to a delete of `id`, from the number of rows it removed:
/// none is not-found, never an internal failure.
pub fn delete_outcome(id: u128, result: Result<u64, StoreFailure>) -> (r: ApiResponse)
    ensures
        result == Ok::<u64, StoreFailure>(0) ==> reports_not_found(r, id),
        (result is Ok && result->Ok_0 > 0) ==> r.status == 204 && r.body is Empty,
        result is Err ==> reports_internal(r, record_failure_text()),
{
    match result {
        Ok(0) => not_found(id),
        Ok(_) => no_content_response(),
        Err(_) => internal("Something bad happened while handling the customer"),
    }
}

} // verus!
