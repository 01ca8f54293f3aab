use vstd::prelude::*;

verus! {

/// One stored customer row. `id` and `created_at` are assigned by the store;
/// timestamps are microseconds since the Unix epoch.
#[derive(Clone, Debug)]
pub struct CustomerModel {
    pub id: u128,
    pub name: String,
    pub email: String,
    pub password: String,
    pub birthday: String,
    pub created_at: Option<i64>,
    pub updated_at: Option<i64>,
}

/// Body of a create request: every field is required.
#[derive(Clone, Debug)]
pub struct CreateCustomerSchema {
    pub name: String,
    pub email: String,
    pub password: String,
    pub birthday: String,
}

/// Body of an update request: an absent field keeps the stored value.
#[derive(Clone, Debug)]
pub struct UpdateCustomerSchema {
    pub name: Option<String>,
    pub email: Option<String>,
    pub password: Option<String>,
    pub birthday: Option<String>,
}

/// The value a field takes after an update: the supplied one, else the stored one.
pub open spec fn field_after(supplied: Option<String>, stored: String) -> String {
    match supplied {
        Some(v) => v,
        None => stored,
    }
}

/// The record an update writes: supplied fields replace stored ones, the
/// identity and creation time stay, and `updated_at` becomes `stamp`.
pub open spec fn merged(existing: CustomerModel, body: UpdateCustomerSchema, stamp: i64) -> CustomerModel {
    CustomerModel {
        id: existing.id,
        name: field_after(body.name, existing.name),
        email: field_after(body.email, existing.email),
        password: field_after(body.password, existing.password),
        birthday: field_after(body.birthday, existing.birthday),
        created_at: existing.created_at,
        updated_at: Some(stamp),
    }
}

fn pick_field(supplied: &Option<String>, stored: &String) -> (r: String)
    ensures
        r == field_after(*supplied, *stored),
{
    match supplied {
        Some(v) => v.clone(),
        None => stored.clone(),
    }
}

impl CustomerModel {
    /// A field-by-field copy of the record.
    pub fn duplicate(&self) -> (r: CustomerModel)
        ensures
            r == *self,
    {
        CustomerModel {
            id: self.id,
            name: self.name.clone(),
            email: self.email.clone(),
            password: self.password.clone(),
            birthday: self.birthday.clone(),
            created_at: self.created_at,
            updated_at: self.updated_at,
        }
    }
}

/// Applies a partial update to a stored record, stamping it with `stamp`.
pub fn merge_update(existing: &CustomerModel, body: &UpdateCustomerSchema, stamp: i64) -> (r: CustomerModel)
    ensures
        r == merged(*existing, *body, stamp),
{
    CustomerModel {
        id: existing.id,
        name: pick_field(&body.name, &existing.name),
        email: pick_field(&body.email, &existing.email),
        password: pick_field(&body.password, &existing.password),
        birthday: pick_field(&body.birthday, &existing.birthday),
        created_at: existing.created_at,
        updated_at: Some(stamp),
    }
}

} // verus!
