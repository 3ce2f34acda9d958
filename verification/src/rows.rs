//! The rows of the three reports, and the check of each report's result
//! against the five contracts.

use vstd::prelude::*;

use crate::contracts::{
    check_rows, counts, faults, lemma_verdict_first_faulty_row, lemma_verdict_none, outcome, verdict,
    Contract, ReportRow,
};

verus! {

/// One row of the "top customers by rental count" report.
#[derive(Debug)]
pub struct TopCustomer {
    /// `customer.customer_id`, the primary key; contract 3 asks that it be positive.
    pub customer_id: i32,
    /// `"First Last"`; contract 4 asks that it hold a space.
    pub name: String,
    /// Rentals joined from `rental.parquet`; contracts 2 and 5.
    pub rental_count: i64,
    /// `customer.email`, which the source schema lets be null.
    pub email: Option<String>,
}

/// One row of the "top films by rental count" report.
#[derive(Debug)]
pub struct TopFilm {
    /// `film.film_id`, the primary key; contract 3 asks that it be positive.
    pub film_id: i32,
    /// `film.title`; contract 4 asks that it not be empty.
    pub title: String,
    /// Rentals joined through `inventory.parquet`; contracts 2 and 5.
    pub rental_count: i64,
}

/// One row of the "top actors by distinct film count" report.
#[derive(Debug)]
pub struct TopActor {
    /// `actor.actor_id`, the primary key; contract 3 asks that it be positive.
    pub actor_id: i32,
    /// `actor.first_name`; contract 4 asks that it not be empty.
    pub first_name: String,
    /// `actor.last_name`; contract 4 asks that it not be empty.
    pub last_name: String,
    /// Distinct films joined from `film_actor.parquet`; contracts 2 and 5.
    pub film_count: i64,
}

/// Whether `s` holds a space.
fn has_space(s: &str) -> (b: bool)
    ensures
        b == s@.contains(' '),
{
    let n = s.unicode_len();
    let mut i: usize = 0;
    while i < n
        invariant
            n == s@.len(),
            i <= n,
            forall|j: int| 0 <= j < i ==> s@[j] != ' ',
        decreases n - i,
    {
        if s.get_char(i) == ' ' {
            return true;
        }
        i += 1;
    }
    false
}

impl ReportRow for TopCustomer {
    open spec fn count_of(&self) -> i64 {
        self.rental_count
    }

    open spec fn fault_of(&self) -> Option<Contract> {
        if self.customer_id <= 0 {
            Some(Contract::IdPositive)
        } else if !self.name@.contains(' ') {
            Some(Contract::StringFieldWellFormed)
        } else {
            None
        }
    }

    fn count(&self) -> (c: i64) {
        self.rental_count
    }

    fn fault(&self) -> (f: Option<Contract>) {
        if self.customer_id <= 0 {
            Some(Contract::IdPositive)
        } else if !has_space(self.name.as_str()) {
            Some(Contract::StringFieldWellFormed)
        } else {
            None
        }
    }
}

impl ReportRow for TopFilm {
    open spec fn count_of(&self) -> i64 {
        self.rental_count
    }

    open spec fn fault_of(&self) -> Option<Contract> {
        if self.film_id <= 0 {
            Some(Contract::IdPositive)
        } else if self.title@.len() == 0 {
            Some(Contract::StringFieldWellFormed)
        } else {
            None
        }
    }

    fn count(&self) -> (c: i64) {
        self.rental_count
    }

    fn fault(&self) -> (f: Option<Contract>) {
        if self.film_id <= 0 {
            Some(Contract::IdPositive)
        } else if self.title.as_str().is_empty() {
            Some(Contract::StringFieldWellFormed)
        } else {
            None
        }
    }
}

impl ReportRow for TopActor {
    open spec fn count_of(&self) -> i64 {
        self.film_count
    }

    open spec fn fault_of(&self) -> Option<Contract> {
        if self.actor_id <= 0 {
            Some(Contract::IdPositive)
        } else if self.first_name@.len() == 0 || self.last_name@.len() == 0 {
            Some(Contract::StringFieldWellFormed)
        } else {
            None
        }
    }

    fn count(&self) -> (c: i64) {
        self.film_count
    }

    fn fault(&self) -> (f: Option<Contract>) {
        if self.actor_id <= 0 {
            Some(Contract::IdPositive)
        } else if self.first_name.as_str().is_empty() || self.last_name.as_str().is_empty() {
            Some(Contract::StringFieldWellFormed)
        } else {
            None
        }
    }
}

/// The five contracts on a top-customers result fetched with row limit `limit`.
pub open spec fn customers_meet_contracts(rows: Seq<TopCustomer>, limit: nat) -> bool {
    &&& rows.len() == limit
    &&& limit >= 1
    &&& rows[0].rental_count >= 1
    &&& forall|i: int| 0 <= i < rows.len() ==> (#[trigger] rows[i]).customer_id > 0
    &&& forall|i: int| 0 <= i < rows.len() ==> (#[trigger] rows[i]).name@.contains(' ')
    &&& forall|i: int, j: int|
        0 <= i <= j < rows.len() ==> (#[trigger] rows[i]).rental_count >= (#[trigger] rows[j]).rental_count
}

/// The five contracts on a top-films result fetched with row limit `limit`.
pub open spec fn films_meet_contracts(rows: Seq<TopFilm>, limit: nat) -> bool {
    &&& rows.len() == limit
    &&& limit >= 1
    &&& rows[0].rental_count >= 1
    &&& forall|i: int| 0 <= i < rows.len() ==> (#[trigger] rows[i]).film_id > 0
    &&& forall|i: int| 0 <= i < rows.len() ==> (#[trigger] rows[i]).title@.len() > 0
    &&& forall|i: int, j: int|
        0 <= i <= j < rows.len() ==> (#[trigger] rows[i]).rental_count >= (#[trigger] rows[j]).rental_count
}

/// The five contracts on a top-actors result fetched with row limit `limit`.
pub open spec fn actors_meet_contracts(rows: Seq<TopActor>, limit: nat) -> bool {
    &&& rows.len() == limit
    &&& limit >= 1
    &&& rows[0].film_count >= 1
    &&& forall|i: int| 0 <= i < rows.len() ==> (#[trigger] rows[i]).actor_id > 0
    &&& forall|i: int| 0 <= i < rows.len() ==> (#[trigger] rows[i]).first_name@.len() > 0
    &&& forall|i: int| 0 <= i < rows.len() ==> (#[trigger] rows[i]).last_name@.len() > 0
    &&& forall|i: int, j: int|
        0 <= i <= j < rows.len() ==> (#[trigger] rows[i]).film_count >= (#[trigger] rows[j]).film_count
}

/// A top-customers result passes the checks exactly when it meets the five contracts.
pub proof fn lemma_customers_accepted(rows: Seq<TopCustomer>, limit: nat)
    ensures
        verdict(rows, limit) is None <==> customers_meet_contracts(rows, limit),
{
    lemma_verdict_none(rows, limit);
}

/// A top-films result passes the checks exactly when it meets the five contracts.
pub proof fn lemma_films_accepted(rows: Seq<TopFilm>, limit: nat)
    ensures
        verdict(rows, limit) is None <==> films_meet_contracts(rows, limit),
{
    lemma_verdict_none(rows, limit);
}

/// A top-actors result passes the checks exactly when it meets the five contracts.
pub proof fn lemma_actors_accepted(rows: Seq<TopActor>, limit: nat)
    ensures
        verdict(rows, limit) is None <==> actors_meet_contracts(rows, limit),
{
    lemma_verdict_none(rows, limit);
}

/// A customer row on its own: a non-positive key breaks contract 3, whatever
/// the name; with a positive key, a name without a space breaks contract 4;
/// otherwise the row breaks neither.
pub proof fn lemma_customer_row_fault(row: TopCustomer)
    ensures
        row.customer_id <= 0 ==> row.fault_of() == Some(Contract::IdPositive),
        row.customer_id > 0 && !row.name@.contains(' ') ==> row.fault_of() == Some(
            Contract::StringFieldWellFormed,
        ),
        row.customer_id > 0 && row.name@.contains(' ') ==> row.fault_of() is None,
{
}

/// A film row on its own: a non-positive key breaks contract 3, whatever the
/// title; with a positive key, an empty title breaks contract 4; otherwise the
/// row breaks neither.
pub proof fn lemma_film_row_fault(row: TopFilm)
    ensures
        row.film_id <= 0 ==> row.fault_of() == Some(Contract::IdPositive),
        row.film_id > 0 && row.title@.len() == 0 ==> row.fault_of() == Some(
            Contract::StringFieldWellFormed,
        ),
        row.film_id > 0 && row.title@.len() > 0 ==> row.fault_of() is None,
{
}

/// An actor row on its own: a non-positive key breaks contract 3, whatever the
/// names; with a positive key, an empty first or last name breaks contract 4;
/// otherwise the row breaks neither.
pub proof fn lemma_actor_row_fault(row: TopActor)
    ensures
        row.actor_id <= 0 ==> row.fault_of() == Some(Contract::IdPositive),
        row.actor_id > 0 && (row.first_name@.len() == 0 || row.last_name@.len() == 0)
            ==> row.fault_of() == Some(Contract::StringFieldWellFormed),
        row.actor_id > 0 && row.first_name@.len() > 0 && row.last_name@.len() > 0
            ==> row.fault_of() is None,
{
}

/// The films check on a result of the right length with a counted top record:
/// the first row with a non-positive key or an empty title decides, and it is
/// refused for its key when its key is not positive, else for its title.
pub proof fn lemma_films_first_bad_row(rows: Seq<TopFilm>, limit: nat, k: int)
    requires
        rows.len() == limit,
        limit >= 1,
        rows[0].rental_count >= 1,
        0 <= k < rows.len(),
        rows[k].film_id <= 0 || rows[k].title@.len() == 0,
        forall|j: int| 0 <= j < k ==> (#[trigger] rows[j]).film_id > 0 && rows[j].title@.len() > 0,
    ensures
        rows[k].film_id <= 0 ==> verdict(rows, limit) == Some(Contract::IdPositive),
        rows[k].film_id > 0 ==> verdict(rows, limit) == Some(Contract::StringFieldWellFormed),
{
    lemma_film_row_fault(rows[k]);
    assert forall|j: int| 0 <= j < k implies (#[trigger] rows[j]).fault_of() is None by {
        lemma_film_row_fault(rows[j]);
    }
    lemma_verdict_first_faulty_row(rows, limit, k);
}

/// The customers check on a result of the right length with a counted top
/// record: the first row with a non-positive key or a name without a space
/// decides, and it is refused for its key when its key is not positive, else
/// for its name.
pub proof fn lemma_customers_first_bad_row(rows: Seq<TopCustomer>, limit: nat, k: int)
    requires
        rows.len() == limit,
        limit >= 1,
        rows[0].rental_count >= 1,
        0 <= k < rows.len(),
        rows[k].customer_id <= 0 || !rows[k].name@.contains(' '),
        forall|j: int| 0 <= j < k ==> (#[trigger] rows[j]).customer_id > 0 && rows[j].name@.contains(' '),
    ensures
        rows[k].customer_id <= 0 ==> verdict(rows, limit) == Some(Contract::IdPositive),
        rows[k].customer_id > 0 ==> verdict(rows, limit) == Some(Contract::StringFieldWellFormed),
{
    lemma_customer_row_fault(rows[k]);
    assert forall|j: int| 0 <= j < k implies (#[trigger] rows[j]).fault_of() is None by {
        lemma_customer_row_fault(rows[j]);
    }
    lemma_verdict_first_faulty_row(rows, limit, k);
}

/// The actors check on a result of the right length with a counted top
/// record: the first row with a non-positive key or an empty name decides, and
/// it is refused for its key when its key is not positive, else for its names.
pub proof fn lemma_actors_first_bad_row(rows: Seq<TopActor>, limit: nat, k: int)
    requires
        rows.len() == limit,
        limit >= 1,
        rows[0].film_count >= 1,
        0 <= k < rows.len(),
        rows[k].actor_id <= 0 || rows[k].first_name@.len() == 0 || rows[k].last_name@.len() == 0,
        forall|j: int|
            0 <= j < k ==> (#[trigger] rows[j]).actor_id > 0 && rows[j].first_name@.len() > 0
                && rows[j].last_name@.len() > 0,
    ensures
        rows[k].actor_id <= 0 ==> verdict(rows, limit) == Some(Contract::IdPositive),
        rows[k].actor_id > 0 ==> verdict(rows, limit) == Some(Contract::StringFieldWellFormed),
{
    lemma_actor_row_fault(rows[k]);
    assert forall|j: int| 0 <= j < k implies (#[trigger] rows[j]).fault_of() is None by {
        lemma_actor_row_fault(rows[j]);
    }
    lemma_verdict_first_faulty_row(rows, limit, k);
}

/// The customers check never reads the email column: two results that agree
/// row by row on key, name and rental count get the same verdict.
pub proof fn lemma_customers_ignore_email(rows: Seq<TopCustomer>, other: Seq<TopCustomer>, limit: nat)
    requires
        other.len() == rows.len(),
        forall|i: int|
            0 <= i < rows.len() ==> {
                &&& (#[trigger] other[i]).customer_id == rows[i].customer_id
                &&& other[i].name@ == rows[i].name@
                &&& other[i].rental_count == rows[i].rental_count
            },
    ensures
        verdict(other, limit) == verdict(rows, limit),
        customers_meet_contracts(other, limit) == customers_meet_contracts(rows, limit),
{
    assert(faults(other) =~= faults(rows)) by {
        assert forall|i: int| 0 <= i < rows.len() implies faults(other)[i] == faults(rows)[i] by {
            assert(other[i].customer_id == rows[i].customer_id);
        }
    }
    assert(counts(other) =~= counts(rows)) by {
        assert forall|i: int| 0 <= i < rows.len() implies counts(other)[i] == counts(rows)[i] by {
            assert(other[i].rental_count == rows[i].rental_count);
        }
    }
    lemma_customers_accepted(rows, limit);
    lemma_customers_accepted(other, limit);
}

/// Checks a top-customers result against the five contracts and returns the
/// first one it breaks, in checking order.
pub fn check_contracts_customers(rows: &[TopCustomer], limit: usize) -> (r: Result<(), Contract>)
    ensures
        r == outcome(verdict(rows@, limit as nat)),
        r is Ok <==> customers_meet_contracts(rows@, limit as nat),
{
    proof {
        lemma_customers_accepted(rows@, limit as nat);
    }
    check_rows(rows, limit)
}

/// Checks a top-films result against the five contracts and returns the first
/// one it breaks, in checking order.
pub fn check_contracts_films(rows: &[TopFilm], limit: usize) -> (r: Result<(), Contract>)
    ensures
        r == outcome(verdict(rows@, limit as nat)),
        r is Ok <==> films_meet_contracts(rows@, limit as nat),
{
    proof {
        lemma_films_accepted(rows@, limit as nat);
    }
    check_rows(rows, limit)
}

/// Checks a top-actors result against the five contracts and returns the first
/// one it breaks, in checking order.
pub fn check_contracts_actors(rows: &[TopActor], limit: usize) -> (r: Result<(), Contract>)
    ensures
        r == outcome(verdict(rows@, limit as nat)),
        r is Ok <==> actors_meet_contracts(rows@, limit as nat),
{
    proof {
        lemma_actors_accepted(rows@, limit as nat);
    }
    check_rows(rows, limit)
}

/// Asserts the five contracts on a top-customers result: it is for results
/// that meet them, and a result that breaks one is not admitted.
pub fn assert_contracts_customers(rows: &[TopCustomer], limit: usize)
    requires
        customers_meet_contracts(rows@, limit as nat),
{
}

/// Asserts the five contracts on a top-films result: it is for results that
/// meet them, and a result that breaks one is not admitted.
pub fn assert_contracts_films(rows: &[TopFilm], limit: usize)
    requires
        films_meet_contracts(rows@, limit as nat),
{
}

/// Asserts the five contracts on a top-actors result: it is for results that
/// meet them, and a result that breaks one is not admitted.
pub fn assert_contracts_actors(rows: &[TopActor], limit: usize)
    requires
        actors_meet_contracts(rows@, limit as nat),
{
}

} // verus!
