use vstd::prelude::*;
use vstd::string::*;

verus! {

/// The text uuid gives for an identifier, in its hyphenated lower-case form.
pub uninterp spec fn uuid_text_of(id: u128) -> Seq<char>;

/// Relies on uuid's `Uuid::from_u128` and the `Display` of `Hyphenated`:
/// the text depends on the value alone and is 36 characters long.
#[verifier::external_body]
fn uuid_text(id: u128) -> (r: String)
    ensures
        r@ == uuid_text_of(id),
        r@.len() == 36,
{
    uuid::Uuid::from_u128(id).hyphenated().to_string()
}

/// How a statement against the store failed.
#[derive(Clone, Debug)]
pub enum StoreFailure {
    /// A statement that must return one row returned none.
    RowNotFound,
    /// A unique constraint refused the write; the constraint is named where known.
    UniqueViolation { constraint: Option<String> },
    /// Any other failure, with its diagnostic text.
    Other { detail: String },
}

/// The SQLSTATE code a relational store reports for a unique-constraint violation.
pub open spec fn unique_violation_code() -> Seq<char> {
    seq!['2', '3', '5', '0', '5']
}

impl StoreFailure {
    /// Classifies a database-reported failure by its SQLSTATE code: `23505`
    /// is a uniqueness conflict, everything else is an ordinary failure.
    pub fn from_database(code: Option<String>, constraint: Option<String>, detail: String) -> (r: StoreFailure)
        ensures
            (code.is_some() && code.unwrap()@ == unique_violation_code()) ==> r == (StoreFailure::UniqueViolation { constraint }),
            !(code.is_some() && code.unwrap()@ == unique_violation_code()) ==> r == (StoreFailure::Other { detail }),
    {
        let is_unique = match &code {
            Some(c) => {
                let expected = String::from_str("23505");
                proof {
                    reveal_strlit("23505");
                    assert(expected@ =~= unique_violation_code());
                }
                *c == expected
            },
            None => false,
        };
        if is_unique {
            StoreFailure::UniqueViolation { constraint }
        } else {
            StoreFailure::Other { detail }
        }
    }
}

/// What a request can fail with, as the caller sees it.
#[derive(Clone, Debug)]
pub enum ApiError {
    /// No record has this identifier.
    NotFound { id: u128 },
    /// A write would break the unique constraint named `field` (empty when
    /// the store did not name it).
    DuplicateKey { field: String },
    /// A request field is unacceptable, for `reason`.
    ValidationFailure { field: String, reason: String },
    /// The store failed in a way the caller did not cause.
    InternalFailure { cause: String },
}

/// The HTTP status that each failure is reported with.
pub open spec fn status_code_of(e: ApiError) -> u16 {
    match e {
        ApiError::NotFound { .. } => 404,
        ApiError::DuplicateKey { .. } => 400,
        ApiError::ValidationFailure { .. } => 400,
        ApiError::InternalFailure { .. } => 500,
    }
}

/// Whether the caller caused the failure (a "fail" envelope) rather than
/// the service (an "error" envelope).
pub open spec fn caused_by_client(e: ApiError) -> bool {
    !(e is InternalFailure)
}

/// The message of a not-found failure: it names the identifier.
pub open spec fn not_found_message(id: u128) -> Seq<char> {
    "Customer with ID: "@ + uuid_text_of(id) + " not found"@
}

/// The message of a uniqueness conflict: it names the constraint when known.
pub open spec fn duplicate_message(field: Seq<char>) -> Seq<char> {
    if field.len() == 0 {
        "Duplicate Key"@
    } else {
        "Duplicate Key: "@ + field
    }
}

/// The message carried by each failure.
pub open spec fn message_of(e: ApiError) -> Seq<char> {
    match e {
        ApiError::NotFound { id } => not_found_message(id),
        ApiError::DuplicateKey { field } => duplicate_message(field@),
        ApiError::ValidationFailure { field, reason } => field@ + ": "@ + reason@,
        ApiError::InternalFailure { cause } => cause@,
    }
}

impl ApiError {
    pub fn status_code(&self) -> (r: u16)
        ensures
            r == status_code_of(*self),
    {
        match self {
            ApiError::NotFound { .. } => 404,
            ApiError::DuplicateKey { .. } => 400,
            ApiError::ValidationFailure { .. } => 400,
            ApiError::InternalFailure { .. } => 500,
        }
    }

    pub fn is_client_failure(&self) -> (r: bool)
        ensures
            r == caused_by_client(*self),
    {
        !matches!(self, ApiError::InternalFailure { .. })
    }

    pub fn message(&self) -> (r: String)
        ensures
            r@ == message_of(*self),
    {
        match self {
            ApiError::NotFound { id } => {
                let mut m = String::from_str("Customer with ID: ");
                let text = uuid_text(*id);
                m.append(text.as_str());
                m.append(" not found");
                m
            },
            ApiError::DuplicateKey { field } => {
                if field.as_str().unicode_len() == 0 {
                    String::from_str("Duplicate Key")
                } else {
                    let mut m = String::from_str("Duplicate Key: ");
                    m.append(field.as_str());
                    m
                }
            },
            ApiError::ValidationFailure { field, reason } => {
                let mut m = field.clone();
                m.append(": ");
                m.append(reason.as_str());
                m
            },
            ApiError::InternalFailure { cause } => cause.clone(),
        }
    }
}

} // verus!
