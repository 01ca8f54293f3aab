//! A store held in memory, with the statements the controller issues:
//! identifiers and times are handed in by the caller, and a row's update
//! time never runs back.
use vstd::prelude::*;
use vstd::string::*;

use crate::error::StoreFailure;
use crate::model::{CreateCustomerSchema, CustomerModel};

verus! {

/// Some row has the identifier `id`.
pub open spec fn has_id(rows: Seq<CustomerModel>, id: u128) -> bool {
    exists|i: int| 0 <= i < rows.len() && (#[trigger] rows[i]).id == id
}

/// Some row has the e-mail address `email`.
pub open spec fn has_email(rows: Seq<CustomerModel>, email: Seq<char>) -> bool {
    exists|i: int| 0 <= i < rows.len() && (#[trigger] rows[i]).email@ == email
}

/// Some row other than the one with identifier `id` has the address `email`.
pub open spec fn email_held_by_other(rows: Seq<CustomerModel>, email: Seq<char>, id: u128) -> bool {
    exists|i: int| 0 <= i < rows.len() && (#[trigger] rows[i]).email@ == email && rows[i].id != id
}

/// The position of the row with identifier `id`.
pub open spec fn index_of(rows: Seq<CustomerModel>, id: u128) -> int {
    choose|i: int| 0 <= i < rows.len() && (#[trigger] rows[i]).id == id
}

/// The row with identifier `id`.
pub open spec fn record_of(rows: Seq<CustomerModel>, id: u128) -> CustomerModel {
    rows[index_of(rows, id)]
}

/// How many rows have the address `email`.
pub open spec fn email_count(rows: Seq<CustomerModel>, email: Seq<char>) -> nat
    decreases rows.len(),
{
    if rows.len() == 0 {
        0
    } else {
        email_count(rows.drop_last(), email) + if rows.last().email@ == email {
            1nat
        } else {
            0nat
        }
    }
}

/// A row's timestamps are set and ordered.
pub open spec fn stamped(r: CustomerModel) -> bool {
    &&& r.created_at is Some
    &&& r.updated_at is Some ==> r.created_at->Some_0 <= r.updated_at->Some_0
}

/// Identifiers and e-mail addresses are unique, and every row's timestamps
/// are set and ordered.
pub open spec fn rows_wf(rows: Seq<CustomerModel>) -> bool {
    &&& forall|i: int, j: int|
        0 <= i < rows.len() && 0 <= j < rows.len() && i != j ==> (#[trigger] rows[i]).id != (
        #[trigger] rows[j]).id && rows[i].email@ != rows[j].email@
    &&& forall|i: int| 0 <= i < rows.len() ==> stamped(#[trigger] rows[i])
}

/// The latest time a row was written: its update time, else its creation time.
pub open spec fn last_write(r: CustomerModel) -> i64 {
    match r.updated_at {
        Some(u) => u,
        None => match r.created_at {
            Some(c) => c,
            None => i64::MIN,
        },
    }
}

/// The update time that a write at wall-clock time `now` gives the row `r`:
/// `now` when it is past the row's latest write, else the instant after
/// that write, so that update times only move forward; none when no later
/// instant exists.
pub open spec fn update_stamp(r: CustomerModel, now: i64) -> Option<i64> {
    if now > last_write(r) {
        Some(now)
    } else if last_write(r) < i64::MAX {
        Some((last_write(r) + 1) as i64)
    } else {
        None
    }
}

/// The update time for a write of `existing` at wall-clock time `now`.
pub fn stamp_after(existing: &CustomerModel, now: i64) -> (r: Option<i64>)
    ensures
        r == update_stamp(*existing, now),
{
    let last = match existing.updated_at {
        Some(u) => u,
        None => match existing.created_at {
            Some(c) => c,
            None => i64::MIN,
        },
    };
    if now > last {
        Some(now)
    } else if last < i64::MAX {
        Some(last + 1)
    } else {
        None
    }
}

/// The row an insert of `body` creates.
pub open spec fn new_record(body: CreateCustomerSchema, id: u128, stamp: i64) -> CustomerModel {
    CustomerModel {
        id,
        name: body.name,
        email: body.email,
        password: body.password,
        birthday: body.birthday,
        created_at: Some(stamp),
        updated_at: None,
    }
}

/// The row an update writes over `old`: the four fields of `values`, and the stamp.
pub open spec fn written(old: CustomerModel, values: CustomerModel, stamp: i64) -> CustomerModel {
    CustomerModel {
        id: old.id,
        name: values.name,
        email: values.email,
        password: values.password,
        birthday: values.birthday,
        created_at: old.created_at,
        updated_at: Some(stamp),
    }
}

/// The name of the unique constraint on e-mail addresses.
pub open spec fn email_constraint() -> Seq<char> {
    "customers_email_key"@
}

/// The name of the primary-key constraint.
pub open spec fn key_constraint() -> Seq<char> {
    "customers_pkey"@
}

/// `f` is a uniqueness conflict on the constraint named `name`.
pub open spec fn conflict_on(f: StoreFailure, name: Seq<char>) -> bool {
    f is UniqueViolation && f->UniqueViolation_constraint is Some
        && f->UniqueViolation_constraint->Some_0@ == name
}

fn conflict(name: &str) -> (r: StoreFailure)
    ensures
        conflict_on(r, name@),
{
    StoreFailure::UniqueViolation { constraint: Some(String::from_str(name)) }
}

fn stamp_exhausted() -> (r: StoreFailure)
    ensures
        r is Other,
{
    StoreFailure::Other { detail: String::from_str("no later update time exists") }
}

/// Customer rows held in memory, in the order of insertion.
pub struct MemoryStore {
    rows: Vec<CustomerModel>,
}

impl View for MemoryStore {
    type V = Seq<CustomerModel>;

    closed spec fn view(&self) -> Seq<CustomerModel> {
        self.rows@
    }
}

pub(crate) proof fn lemma_index_of(rows: Seq<CustomerModel>, k: int)
    requires
        rows_wf(rows),
        0 <= k < rows.len(),
    ensures
        has_id(rows, rows[k].id),
        index_of(rows, rows[k].id) == k,
        record_of(rows, rows[k].id) == rows[k],
{
    let id = rows[k].id;
    assert(rows[k].id == id);
    let j = index_of(rows, id);
    assert(0 <= j < rows.len() && rows[j].id == id);
}

pub(crate) proof fn lemma_remove_wf(rows: Seq<CustomerModel>, k: int)
    requires
        rows_wf(rows),
        0 <= k < rows.len(),
    ensures
        rows_wf(rows.remove(k)),
{
    let after = rows.remove(k);
    assert forall|i: int, j: int|
        0 <= i < after.len() && 0 <= j < after.len() && i != j implies (#[trigger] after[i]).id != (
        #[trigger] after[j]).id && after[i].email@ != after[j].email@ by {
        let a = if i < k {
            i
        } else {
            i + 1
        };
        let b = if j < k {
            j
        } else {
            j + 1
        };
        assert(after[i] == rows[a] && after[j] == rows[b]);
    }
    assert forall|i: int| 0 <= i < after.len() implies stamped(#[trigger] after[i]) by {
        let a = if i < k {
            i
        } else {
            i + 1
        };
        assert(after[i] == rows[a]);
    }
}

pub(crate) proof fn lemma_push_wf(rows: Seq<CustomerModel>, c: CustomerModel)
    requires
        rows_wf(rows),
        !has_id(rows, c.id),
        !has_email(rows, c.email@),
        stamped(c),
    ensures
        rows_wf(rows.push(c)),
        has_id(rows.push(c), c.id),
        record_of(rows.push(c), c.id) == c,
{
    let after = rows.push(c);
    assert forall|i: int, j: int|
        0 <= i < after.len() && 0 <= j < after.len() && i != j implies (#[trigger] after[i]).id != (
        #[trigger] after[j]).id && after[i].email@ != after[j].email@ by {
        if i == rows.len() {
            assert(rows[j] == after[j]);
        } else if j == rows.len() {
            assert(rows[i] == after[i]);
        }
    }
    assert forall|i: int| 0 <= i < after.len() implies stamped(#[trigger] after[i]) by {
        if i < rows.len() {
            assert(rows[i] == after[i]);
        }
    }
    lemma_index_of(after, rows.len() as int);
}

impl MemoryStore {
    /// An empty store.
    pub fn new() -> (r: MemoryStore)
        ensures
            r@ == Seq::<CustomerModel>::empty(),
            rows_wf(r@),
    {
        MemoryStore { rows: Vec::new() }
    }

    fn position_of(&self, id: u128) -> (r: Option<usize>)
        ensures
            r is Some ==> r->Some_0 < self@.len() && self@[r->Some_0 as int].id == id,
            r is None ==> !has_id(self@, id),
    {
        let mut i: usize = 0;
        while i < self.rows.len()
            invariant
                i <= self.rows@.len(),
                forall|j: int| 0 <= j < i ==> (#[trigger] self.rows@[j]).id != id,
            decreases self.rows@.len() - i,
        {
            if self.rows[i].id == id {
                return Some(i);
            }
            i = i + 1;
        }
        None
    }

    fn email_taken(&self, email: &String, except: Option<u128>) -> (r: bool)
        ensures
            except is None ==> r == has_email(self@, email@),
            except is Some ==> r == email_held_by_other(self@, email@, except->Some_0),
    {
        let mut i: usize = 0;
        while i < self.rows.len()
            invariant
                i <= self.rows@.len(),
                forall|j: int|
                    0 <= j < i ==> (#[trigger] self.rows@[j]).email@ != email@ || (except is Some
                        && self.rows@[j].id == except->Some_0),
            decreases self.rows@.len() - i,
        {
            let row = &self.rows[i];
            if row.email == *email {
                match except {
                    None => {
                        return true;
                    },
                    Some(id) => {
                        if row.id != id {
                            return true;
                        }
                    },
                }
            }
            i = i + 1;
        }
        false
    }

    /// Every row, in the order of insertion.
    pub fn fetch_all(&self) -> (r: Vec<CustomerModel>)
        ensures
            r@ == self@,
    {
        let mut out: Vec<CustomerModel> = Vec::new();
        let mut i: usize = 0;
        while i < self.rows.len()
            invariant
                i <= self.rows@.len(),
                out@ == self.rows@.subrange(0, i as int),
            decreases self.rows@.len() - i,
        {
            out.push(self.rows[i].duplicate());
            i = i + 1;
            assert(out@ =~= self.rows@.subrange(0, i as int));
        }
        assert(out@ =~= self.rows@);
        out
    }

    /// The row with identifier `id`; `RowNotFound` when there is none.
    pub fn fetch_one(&self, id: u128) -> (r: Result<CustomerModel, StoreFailure>)
        requires
            rows_wf(self@),
        ensures
            has_id(self@, id) ==> r == Ok::<CustomerModel, StoreFailure>(record_of(self@, id)),
            !has_id(self@, id) ==> r is Err && r->Err_0 is RowNotFound,
    {
        match self.position_of(id) {
            Some(k) => {
                proof {
                    lemma_index_of(self@, k as int);
                }
                Ok(self.rows[k].duplicate())
            },
            None => Err(StoreFailure::RowNotFound),
        }
    }

    /// Inserts the row for `body` under identifier `id`, created at `now`.
    /// A taken address or identifier is a uniqueness conflict, and changes
    /// nothing.
    pub fn insert(&mut self, body: &CreateCustomerSchema, id: u128, now: i64) -> (r: Result<
        CustomerModel,
        StoreFailure,
    >)
        requires
            rows_wf(old(self)@),
        ensures
            rows_wf(final(self)@),
            r is Err ==> final(self)@ == old(self)@,
            has_email(old(self)@, body.email@) ==> r is Err && conflict_on(
                r->Err_0,
                email_constraint(),
            ),
            (!has_email(old(self)@, body.email@) && has_id(old(self)@, id)) ==> r is Err
                && conflict_on(r->Err_0, key_constraint()),
            (!has_email(old(self)@, body.email@) && !has_id(old(self)@, id)) ==> ({
                let c = new_record(*body, id, now);
                &&& r == Ok::<CustomerModel, StoreFailure>(c)
                &&& final(self)@ == old(self)@.push(c)
                &&& has_id(final(self)@, id) && record_of(final(self)@, id) == c
            }),
    {
        if self.email_taken(&body.email, None) {
            return Err(conflict("customers_email_key"));
        }
        if self.position_of(id).is_some() {
            return Err(conflict("customers_pkey"));
        }
        let c = CustomerModel {
            id,
            name: body.name.clone(),
            email: body.email.clone(),
            password: body.password.clone(),
            birthday: body.birthday.clone(),
            created_at: Some(now),
            updated_at: None,
        };
        let ghost rows0 = self.rows@;
        self.rows.push(c.duplicate());
        proof {
            lemma_push_wf(rows0, c);
        }
        Ok(c)
    }

    /// Writes the four fields of `values` over the row with the same
    /// identifier, with the update time `update_stamp(row, now)`, and
    /// returns the row as written. No such row is `RowNotFound`; an address
    /// held by another row is a uniqueness conflict; a row with no later
    /// instant is an ordinary failure. A failed update changes nothing.
    pub fn update(&mut self, values: &CustomerModel, now: i64) -> (r: Result<CustomerModel, StoreFailure>)
        requires
            rows_wf(old(self)@),
        ensures
            rows_wf(final(self)@),
            r is Err ==> final(self)@ == old(self)@,
            !has_id(old(self)@, values.id) ==> r is Err && r->Err_0 is RowNotFound,
            (has_id(old(self)@, values.id) && email_held_by_other(
                old(self)@,
                values.email@,
                values.id,
            )) ==> r is Err && conflict_on(r->Err_0, email_constraint()),
            (has_id(old(self)@, values.id) && !email_held_by_other(
                old(self)@,
                values.email@,
                values.id,
            ) && update_stamp(record_of(old(self)@, values.id), now) is None) ==> r is Err
                && r->Err_0 is Other,
            (has_id(old(self)@, values.id) && !email_held_by_other(
                old(self)@,
                values.email@,
                values.id,
            ) && update_stamp(record_of(old(self)@, values.id), now) is Some) ==> ({
                let before = record_of(old(self)@, values.id);
                let u = written(before, *values, update_stamp(before, now)->Some_0);
                &&& r == Ok::<CustomerModel, StoreFailure>(u)
                &&& final(self)@ == old(self)@.update(index_of(old(self)@, values.id), u)
            }),
    {
        let k = match self.position_of(values.id) {
            Some(k) => k,
            None => {
                return Err(StoreFailure::RowNotFound);
            },
        };
        proof {
            lemma_index_of(self@, k as int);
        }
        if self.email_taken(&values.email, Some(values.id)) {
            return Err(conflict("customers_email_key"));
        }
        let stamp = match stamp_after(&self.rows[k], now) {
            Some(t) => t,
            None => {
                return Err(stamp_exhausted());
            },
        };
        let u = CustomerModel {
            id: values.id,
            name: values.name.clone(),
            email: values.email.clone(),
            password: values.password.clone(),
            birthday: values.birthday.clone(),
            created_at: self.rows[k].created_at,
            updated_at: Some(stamp),
        };
        let ghost rows0 = self.rows@;
        self.rows.set(k, u.duplicate());
        proof {
            let rows = self.rows@;
            assert(stamped(rows0[k as int]));
            assert forall|i: int, j: int|
                0 <= i < rows.len() && 0 <= j < rows.len() && i != j implies (#[trigger] rows[i]).id
                != (#[trigger] rows[j]).id && rows[i].email@ != rows[j].email@ by {
                if i == k {
                    assert(rows0[j] == rows[j]);
                    assert(rows0[k as int].id == rows0[i].id);
                } else if j == k {
                    assert(rows0[i] == rows[i]);
                } else {
                    assert(rows0[i] == rows[i] && rows0[j] == rows[j]);
                }
            }
            assert forall|i: int| 0 <= i < rows.len() implies stamped(#[trigger] rows[i]) by {
                if i != k {
                    assert(rows0[i] == rows[i]);
                }
            }
        }
        Ok(u)
    }

    /// Removes the row with identifier `id`, if any, and returns how many
    /// rows went: one or none.
    pub fn delete(&mut self, id: u128) -> (r: u64)
        requires
            rows_wf(old(self)@),
        ensures
            rows_wf(final(self)@),
            has_id(old(self)@, id) ==> r == 1 && final(self)@ == old(self)@.remove(
                index_of(old(self)@, id),
            ),
            !has_id(old(self)@, id) ==> r == 0 && final(self)@ == old(self)@,
    {
        match self.position_of(id) {
            Some(k) => {
                proof {
                    lemma_index_of(self@, k as int);
                }
                let ghost rows0 = self.rows@;
                let _ = self.rows.remove(k);
                proof {
                    lemma_remove_wf(rows0, k as int);
                }
                1
            },
            None => 0,
        }
    }
}

} // verus!
