use vstd::prelude::*;

use crate::error::{caused_by_client, message_of, status_code_of, ApiError};
use crate::model::CustomerModel;

verus! {

/// The body of a response: a success envelope, a failure envelope, or nothing.
#[derive(Clone, Debug)]
pub enum Envelope {
    /// `{status: "success", data: {customer}}`
    Customer { customer: CustomerModel },
    /// `{status: "success", count, customers}`
    Customers { count: usize, customers: Vec<CustomerModel> },
    /// `{status: "fail", message}`: the caller caused it.
    Fail { message: String },
    /// `{status: "error", message}`: the service failed.
    Error { message: String },
    /// No body at all.
    Empty,
}

/// An HTTP status code with its body.
#[derive(Clone, Debug)]
pub struct ApiResponse {
    pub status: u16,
    pub body: Envelope,
}

/// Whether `r` reports the failure `e`: its status code, its envelope kind and its message.
pub open spec fn reports(r: ApiResponse, e: ApiError) -> bool {
    &&& r.status == status_code_of(e)
    &&& caused_by_client(e) ==> (r.body is Fail && r.body->Fail_message@ == message_of(e))
    &&& !caused_by_client(e) ==> (r.body is Error && r.body->Error_message@ == message_of(e))
}

/// A 200 response that carries one record.
pub fn customer_response(customer: CustomerModel) -> (r: ApiResponse)
    ensures
        r.status == 200,
        r.body == (Envelope::Customer { customer }),
{
    ApiResponse { status: 200, body: Envelope::Customer { customer } }
}

/// A 200 response that carries every record and their count.
pub fn customers_response(customers: Vec<CustomerModel>) -> (r: ApiResponse)
    ensures
        r.status == 200,
        r.body is Customers,
        r.body->Customers_customers@ == customers@,
        r.body->Customers_count == customers@.len(),
{
    let count = customers.len();
    ApiResponse { status: 200, body: Envelope::Customers { count, customers } }
}

/// A 204 response without a body.
pub fn no_content_response() -> (r: ApiResponse)
    ensures
        r.status == 204,
        r.body is Empty,
{
    ApiResponse { status: 204, body: Envelope::Empty }
}

/// The response that reports a failure.
pub fn failure_response(e: &ApiError) -> (r: ApiResponse)
    ensures
        reports(r, *e),
{
    let message = e.message();
    let body = if e.is_client_failure() {
        Envelope::Fail { message }
    } else {
        Envelope::Error { message }
    };
    ApiResponse { status: e.status_code(), body }
}

} // verus!
