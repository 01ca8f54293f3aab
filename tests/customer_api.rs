use customer_api::controller::{
    create_outcome, delete_outcome, fetch_outcome, list_outcome, update_outcome, update_plan,
    validate_create,
};
use customer_api::error::{ApiError, StoreFailure};
use customer_api::model::{merge_update, CreateCustomerSchema, CustomerModel, UpdateCustomerSchema};
use customer_api::response::{failure_response, ApiResponse, Envelope};
use customer_api::service::{
    create_customer, delete_customer, get_customer_by_id, get_customers, update_customer,
};
use customer_api::store::{stamp_after, MemoryStore};

const ANN_ID: u128 = 0xa1a2a3a4b1b2c1c2d1d2d3d4d5d6d7d8;

fn body(name: &str, email: &str, password: &str, birthday: &str) -> CreateCustomerSchema {
    CreateCustomerSchema {
        name: name.to_string(),
        email: email.to_string(),
        password: password.to_string(),
        birthday: birthday.to_string(),
    }
}

fn ann() -> CreateCustomerSchema {
    body("Ann", "ann@x.com", "p", "2000-01-01")
}

fn customer_of(r: &ApiResponse) -> CustomerModel {
    match &r.body {
        Envelope::Customer { customer } => customer.clone(),
        other => panic!("expected a customer, got {:?}", other),
    }
}

fn fail_message(r: &ApiResponse) -> String {
    match &r.body {
        Envelope::Fail { message } => message.clone(),
        other => panic!("expected a fail envelope, got {:?}", other),
    }
}

fn error_message(r: &ApiResponse) -> String {
    match &r.body {
        Envelope::Error { message } => message.clone(),
        other => panic!("expected an error envelope, got {:?}", other),
    }
}

fn count_of(r: &ApiResponse) -> usize {
    match &r.body {
        Envelope::Customers { count, customers } => {
            assert_eq!(*count, customers.len());
            *count
        }
        other => panic!("expected a list, got {:?}", other),
    }
}

#[test]
fn ann_create_duplicate_delete_get() {
    let mut store = MemoryStore::new();
    let first = create_customer(&mut store, &ann(), ANN_ID, 1_000);
    assert_eq!(first.status, 200);
    let created = customer_of(&first);
    assert_eq!(created.email, "ann@x.com");
    let again = create_customer(&mut store, &ann(), ANN_ID + 1, 2_000);
    assert_eq!(again.status, 400);
    assert!(fail_message(&again).starts_with("Duplicate Key"));
    assert_eq!(fail_message(&again), "Duplicate Key: customers_email_key");
    let deleted = delete_customer(&mut store, created.id);
    assert_eq!(deleted.status, 204);
    assert!(matches!(deleted.body, Envelope::Empty));
    let fetched = get_customer_by_id(&store, created.id);
    assert_eq!(fetched.status, 404);
}

#[test]
fn create_then_get_returns_the_same_fields() {
    let mut store = MemoryStore::new();
    let r = create_customer(&mut store, &ann(), ANN_ID, 1_000);
    assert_eq!(r.status, 200);
    let c = customer_of(&r);
    assert_eq!(c.id, ANN_ID);
    assert_eq!(c.created_at, Some(1_000));
    assert_eq!(c.updated_at, None);
    let g = get_customer_by_id(&store, ANN_ID);
    assert_eq!(g.status, 200);
    let found = customer_of(&g);
    assert_eq!(found.name, "Ann");
    assert_eq!(found.email, "ann@x.com");
    assert_eq!(found.password, "p");
    assert_eq!(found.birthday, "2000-01-01");
    assert_eq!(found.created_at, Some(1_000));
    assert_eq!(found.updated_at, None);
}

#[test]
fn second_create_with_same_email_is_duplicate_and_keeps_one() {
    let mut store = MemoryStore::new();
    assert_eq!(create_customer(&mut store, &ann(), 1, 10).status, 200);
    let other = body("Anna", "ann@x.com", "q", "1999-12-31");
    let r = create_customer(&mut store, &other, 2, 20);
    assert_eq!(r.status, 400);
    assert_eq!(fail_message(&r), "Duplicate Key: customers_email_key");
    assert_eq!(count_of(&get_customers(&store)), 1);
    assert_eq!(get_customer_by_id(&store, 2).status, 404);
}

#[test]
fn taken_identifier_is_duplicate() {
    let mut store = MemoryStore::new();
    assert_eq!(create_customer(&mut store, &ann(), 7, 10).status, 200);
    let r = create_customer(&mut store, &body("Bob", "bob@x.com", "b", "1990-05-05"), 7, 20);
    assert_eq!(r.status, 400);
    assert_eq!(fail_message(&r), "Duplicate Key: customers_pkey");
    assert_eq!(count_of(&get_customers(&store)), 1);
}

#[test]
fn missing_id_is_not_found_for_get_and_delete() {
    let mut store = MemoryStore::new();
    let g = get_customer_by_id(&store, ANN_ID);
    assert_eq!(g.status, 404);
    assert_eq!(
        fail_message(&g),
        "Customer with ID: a1a2a3a4-b1b2-c1c2-d1d2-d3d4d5d6d7d8 not found"
    );
    let d = delete_customer(&mut store, ANN_ID);
    assert_eq!(d.status, 404);
    assert_eq!(
        fail_message(&d),
        "Customer with ID: a1a2a3a4-b1b2-c1c2-d1d2-d3d4d5d6d7d8 not found"
    );
}

#[test]
fn name_only_update_keeps_other_fields_and_moves_time_forward() {
    let mut store = MemoryStore::new();
    assert_eq!(create_customer(&mut store, &ann(), ANN_ID, 100).status, 200);
    let change = UpdateCustomerSchema {
        name: Some("Annie".to_string()),
        email: None,
        password: None,
        birthday: None,
    };
    let r = update_customer(&mut store, ANN_ID, &change, 250);
    assert_eq!(r.status, 200);
    let u = customer_of(&r);
    assert_eq!(u.name, "Annie");
    assert_eq!(u.email, "ann@x.com");
    assert_eq!(u.password, "p");
    assert_eq!(u.birthday, "2000-01-01");
    assert_eq!(u.created_at, Some(100));
    assert_eq!(u.updated_at, Some(250));
    let behind = update_customer(&mut store, ANN_ID, &change, 50);
    assert_eq!(customer_of(&behind).updated_at, Some(251));
    let later = update_customer(&mut store, ANN_ID, &change, 1_000);
    assert_eq!(customer_of(&later).updated_at, Some(1_000));
}

#[test]
fn update_takes_the_current_time_whatever_other_records_hold() {
    let mut store = MemoryStore::new();
    assert_eq!(create_customer(&mut store, &ann(), 1, 100).status, 200);
    assert_eq!(create_customer(&mut store, &body("Bob", "bob@x.com", "b", "1990-05-05"), 2, 500).status, 200);
    let change = UpdateCustomerSchema { name: None, email: None, password: None, birthday: None };
    let r = update_customer(&mut store, 1, &change, 300);
    assert_eq!(r.status, 200);
    let u = customer_of(&r);
    assert_eq!(u.updated_at, Some(300));
    assert_eq!(u.created_at, Some(100));
    assert_eq!(u.name, "Ann");
    assert_eq!(u.email, "ann@x.com");
    assert_eq!(u.password, "p");
    assert_eq!(u.birthday, "2000-01-01");
}

#[test]
fn update_of_missing_record_is_not_found() {
    let mut store = MemoryStore::new();
    let change = UpdateCustomerSchema { name: Some("X".to_string()), email: None, password: None, birthday: None };
    let r = update_customer(&mut store, 3, &change, 10);
    assert_eq!(r.status, 404);
    assert_eq!(count_of(&get_customers(&store)), 0);
}

#[test]
fn update_to_another_records_email_is_duplicate() {
    let mut store = MemoryStore::new();
    assert_eq!(create_customer(&mut store, &ann(), 1, 10).status, 200);
    assert_eq!(create_customer(&mut store, &body("Bob", "bob@x.com", "b", "1990-05-05"), 2, 20).status, 200);
    let change = UpdateCustomerSchema { name: None, email: Some("ann@x.com".to_string()), password: None, birthday: None };
    let r = update_customer(&mut store, 2, &change, 30);
    assert_eq!(r.status, 400);
    assert_eq!(fail_message(&r), "Duplicate Key: customers_email_key");
    assert_eq!(customer_of(&get_customer_by_id(&store, 2)).email, "bob@x.com");
}

#[test]
fn delete_then_get_is_not_found_and_count_drops_by_one() {
    let mut store = MemoryStore::new();
    assert_eq!(create_customer(&mut store, &ann(), 1, 10).status, 200);
    assert_eq!(create_customer(&mut store, &body("Bob", "bob@x.com", "b", "1990-05-05"), 2, 20).status, 200);
    assert_eq!(count_of(&get_customers(&store)), 2);
    assert_eq!(delete_customer(&mut store, 1).status, 204);
    assert_eq!(get_customer_by_id(&store, 1).status, 404);
    assert_eq!(count_of(&get_customers(&store)), 1);
    assert_eq!(delete_customer(&mut store, 1).status, 404);
}

#[test]
fn empty_fields_are_refused() {
    let mut store = MemoryStore::new();
    let r = create_customer(&mut store, &body("", "a@x.com", "p", "2000-01-01"), 1, 1);
    assert_eq!(r.status, 400);
    assert_eq!(fail_message(&r), "name: must not be empty");
    let r = create_customer(&mut store, &body("A", "a@x.com", "p", ""), 1, 1);
    assert_eq!(r.status, 400);
    assert_eq!(fail_message(&r), "birthday: must not be empty");
    assert_eq!(count_of(&get_customers(&store)), 0);
    assert!(validate_create(&ann()).is_ok());
}

#[test]
fn update_with_no_later_instant_is_internal_failure() {
    let mut store = MemoryStore::new();
    assert_eq!(create_customer(&mut store, &ann(), 1, i64::MAX).status, 200);
    let change = UpdateCustomerSchema { name: Some("B".to_string()), email: None, password: None, birthday: None };
    let r = update_customer(&mut store, 1, &change, 5);
    assert_eq!(r.status, 500);
    assert_eq!(error_message(&r), "Something bad happened while handling the customer");
    assert_eq!(customer_of(&get_customer_by_id(&store, 1)).name, "Ann");
}

#[test]
fn update_stamps_only_move_forward() {
    let mut c = CustomerModel {
        id: 1,
        name: "Ann".to_string(),
        email: "ann@x.com".to_string(),
        password: "p".to_string(),
        birthday: "2000-01-01".to_string(),
        created_at: Some(40),
        updated_at: None,
    };
    assert_eq!(stamp_after(&c, 42), Some(42));
    assert_eq!(stamp_after(&c, 40), Some(41));
    c.updated_at = Some(90);
    assert_eq!(stamp_after(&c, 60), Some(91));
    c.updated_at = Some(i64::MAX);
    assert_eq!(stamp_after(&c, 60), None);
}

#[test]
fn failures_map_to_status_and_envelope() {
    let nf = ApiError::NotFound { id: ANN_ID };
    assert_eq!(nf.status_code(), 404);
    assert!(nf.is_client_failure());
    let dup = ApiError::DuplicateKey { field: "email".to_string() };
    assert_eq!(dup.status_code(), 400);
    assert_eq!(dup.message(), "Duplicate Key: email");
    let unnamed = ApiError::DuplicateKey { field: String::new() };
    assert_eq!(unnamed.message(), "Duplicate Key");
    let bad = ApiError::ValidationFailure { field: "email".to_string(), reason: "must not be empty".to_string() };
    assert_eq!(bad.status_code(), 400);
    assert_eq!(bad.message(), "email: must not be empty");
    let internal = ApiError::InternalFailure { cause: "boom".to_string() };
    assert_eq!(internal.status_code(), 500);
    assert!(!internal.is_client_failure());
    let r = failure_response(&internal);
    assert_eq!(r.status, 500);
    assert_eq!(error_message(&r), "boom");
}

#[test]
fn database_codes_are_classified() {
    let f = StoreFailure::from_database(Some("23505".to_string()), Some("customers_email_key".to_string()), "d".to_string());
    assert!(matches!(f, StoreFailure::UniqueViolation { constraint: Some(ref c) } if c == "customers_email_key"));
    let f = StoreFailure::from_database(Some("23503".to_string()), None, "fk".to_string());
    assert!(matches!(f, StoreFailure::Other { ref detail } if detail == "fk"));
    let f = StoreFailure::from_database(None, None, "io".to_string());
    assert!(matches!(f, StoreFailure::Other { .. }));
}

#[test]
fn outcomes_map_store_results() {
    let r = list_outcome(Err(StoreFailure::Other { detail: "x".to_string() }));
    assert_eq!(r.status, 500);
    assert_eq!(error_message(&r), "Something bad happened while fetching the customers");
    let r = create_outcome(Err(StoreFailure::UniqueViolation { constraint: None }));
    assert_eq!(r.status, 400);
    assert_eq!(fail_message(&r), "Duplicate Key");
    let r = create_outcome(Err(StoreFailure::UniqueViolation { constraint: Some("customers_pkey".to_string()) }));
    assert_eq!(fail_message(&r), "Duplicate Key: customers_pkey");
    let r = create_outcome(Err(StoreFailure::RowNotFound));
    assert_eq!(r.status, 500);
    let r = fetch_outcome(5, Err(StoreFailure::RowNotFound));
    assert_eq!(r.status, 404);
    let r = fetch_outcome(5, Err(StoreFailure::Other { detail: "x".to_string() }));
    assert_eq!(r.status, 500);
    let r = update_outcome(5, Err(StoreFailure::RowNotFound));
    assert_eq!(r.status, 404);
    let r = update_outcome(5, Err(StoreFailure::UniqueViolation { constraint: None }));
    assert_eq!(r.status, 400);
    assert_eq!(delete_outcome(5, Ok(0)).status, 404);
    assert_eq!(delete_outcome(5, Ok(1)).status, 204);
    assert_eq!(delete_outcome(5, Err(StoreFailure::Other { detail: "x".to_string() })).status, 500);
}

#[test]
fn update_plan_merges_or_stops() {
    let existing = CustomerModel {
        id: 9,
        name: "Ann".to_string(),
        email: "ann@x.com".to_string(),
        password: "p".to_string(),
        birthday: "2000-01-01".to_string(),
        created_at: Some(1),
        updated_at: None,
    };
    let change = UpdateCustomerSchema { name: None, email: None, password: Some("new".to_string()), birthday: None };
    let merged = merge_update(&existing, &change, 7);
    assert_eq!(merged.password, "new");
    assert_eq!(merged.name, "Ann");
    assert_eq!(merged.updated_at, Some(7));
    let planned = update_plan(9, Ok(existing.clone()), &change, 7).ok().unwrap();
    assert_eq!(planned.password, "new");
    assert_eq!(planned.created_at, Some(1));
    let stopped = update_plan(9, Err(StoreFailure::RowNotFound), &change, 7);
    assert_eq!(stopped.err().unwrap().status, 404);
}
