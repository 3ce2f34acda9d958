//! The five named contracts that every report result must meet, and the
//! checks that decide, for a fetched result, which of them (if any) it breaks.
//!
//! The contracts, in the order they are checked:
//! 1. `row_count_exact`: the result has exactly `limit` rows;
//! 2. `top_record_has_count`: there is a first row and its count is at least 1
//!    (an empty result, possible only for limit 0, has no top record);
//! 3. `id_positive`: every primary key is positive;
//! 4. `string_field_well_formed`: the text fields meet the report's rule;
//! 5. `count_descending`: the count column never increases from one row to the next.
//!
//! Contracts 3 and 4 are checked row by row, the first row first; within a row,
//! contract 3 before contract 4.

use vstd::prelude::*;

verus! {

/// One of the five named contracts.
#[derive(Debug, Clone, Copy, PartialEq, Eq, Structural)]
pub enum Contract {
    RowCountExact,
    TopRecordHasCount,
    IdPositive,
    StringFieldWellFormed,
    CountDescending,
}

/// The label under which a contract is known, e.g. `C1 row_count_exact`.
pub open spec fn contract_label(c: Contract) -> Seq<char> {
    match c {
        Contract::RowCountExact => "C1 row_count_exact"@,
        Contract::TopRecordHasCount => "C2 top_record_has_count"@,
        Contract::IdPositive => "C3 id_positive"@,
        Contract::StringFieldWellFormed => "C4 string_field_well_formed"@,
        Contract::CountDescending => "C5 count_descending"@,
    }
}

impl Contract {
    /// The contract's label: its number and its name, e.g. `C1 row_count_exact`.
    pub fn label(&self) -> (r: &'static str)
        ensures
            r@ == contract_label(*self),
    {
        match self {
            Contract::RowCountExact => "C1 row_count_exact",
            Contract::TopRecordHasCount => "C2 top_record_has_count",
            Contract::IdPositive => "C3 id_positive",
            Contract::StringFieldWellFormed => "C4 string_field_well_formed",
            Contract::CountDescending => "C5 count_descending",
        }
    }
}

/// The three reports.
#[derive(Debug, Clone, Copy, PartialEq, Eq, Structural)]
pub enum Report {
    Customers,
    Films,
    Actors,
}

/// The message with which a report's result is refused for breaking a contract.
pub open spec fn breach_text(report: Report, c: Contract) -> Seq<char> {
    match (report, c) {
        (Report::Customers, Contract::RowCountExact) => "C1 row_count_exact: rows.len() == limit"@,
        (Report::Customers, Contract::TopRecordHasCount) => "C2 top_record_has_count: rows[0].rental_count >= 1"@,
        (Report::Customers, Contract::IdPositive) => "C3 id_positive: customer_id > 0"@,
        (Report::Customers, Contract::StringFieldWellFormed) => "C4 string_field_well_formed: name contains space"@,
        (Report::Customers, Contract::CountDescending) => "C5 count_descending: rental_count monotonically non-increasing"@,
        (Report::Films, Contract::IdPositive) => "C3 id_positive: film_id > 0"@,
        (Report::Films, Contract::StringFieldWellFormed) => "C4 string_field_well_formed: title"@,
        (Report::Actors, Contract::IdPositive) => "C3 id_positive: actor_id > 0"@,
        (Report::Actors, Contract::StringFieldWellFormed) => "C4 string_field_well_formed: first_name + last_name"@,
        (_, c) => contract_label(c),
    }
}

/// The message with which `report`'s result is refused for breaking `c`: the
/// contract's label, followed for some contracts by the rule it checks.
pub fn breach_message(report: Report, c: Contract) -> (r: &'static str)
    ensures
        r@ == breach_text(report, c),
{
    match (report, c) {
        (Report::Customers, Contract::RowCountExact) => "C1 row_count_exact: rows.len() == limit",
        (Report::Customers, Contract::TopRecordHasCount) => "C2 top_record_has_count: rows[0].rental_count >= 1",
        (Report::Customers, Contract::IdPositive) => "C3 id_positive: customer_id > 0",
        (Report::Customers, Contract::StringFieldWellFormed) => "C4 string_field_well_formed: name contains space",
        (Report::Customers, Contract::CountDescending) => "C5 count_descending: rental_count monotonically non-increasing",
        (Report::Films, Contract::IdPositive) => "C3 id_positive: film_id > 0",
        (Report::Films, Contract::StringFieldWellFormed) => "C4 string_field_well_formed: title",
        (Report::Actors, Contract::IdPositive) => "C3 id_positive: actor_id > 0",
        (Report::Actors, Contract::StringFieldWellFormed) => "C4 string_field_well_formed: first_name + last_name",
        (_, c) => c.label(),
    }
}

/// A row of a report: it has a count column, and it may break contract 3 or 4 on its own.
pub trait ReportRow: Sized {
    /// The row's count column.
    spec fn count_of(&self) -> i64;

    /// The contract that this row alone breaks: `IdPositive` if its key is not
    /// positive, else `StringFieldWellFormed` if a text field breaks the report's
    /// rule, else none.
    spec fn fault_of(&self) -> Option<Contract>;

    fn count(&self) -> (c: i64)
        ensures
            c == self.count_of(),
    ;

    fn fault(&self) -> (f: Option<Contract>)
        ensures
            f == self.fault_of(),
    ;
}

/// The first fault in row order, if any.
pub open spec fn first_fault(faults: Seq<Option<Contract>>) -> Option<Contract>
    decreases faults.len(),
{
    if faults.len() == 0 {
        None
    } else if faults[0] is Some {
        faults[0]
    } else {
        first_fault(faults.drop_first())
    }
}

/// Each count is at least the one right after it.
pub open spec fn non_increasing(counts: Seq<i64>) -> bool {
    forall|i: int, j: int|
        0 <= i && j == i + 1 && j < counts.len() ==> #[trigger] counts[i] >= #[trigger] counts[j]
}

/// Each count is at least every count after it.
pub open spec fn sorted_descending(counts: Seq<i64>) -> bool {
    forall|i: int, j: int| 0 <= i <= j < counts.len() ==> #[trigger] counts[i] >= #[trigger] counts[j]
}

/// The count column of a result.
pub open spec fn counts<R: ReportRow>(rows: Seq<R>) -> Seq<i64> {
    rows.map_values(|r: R| r.count_of())
}

/// The per-row faults of a result, in row order.
pub open spec fn faults<R: ReportRow>(rows: Seq<R>) -> Seq<Option<Contract>> {
    rows.map_values(|r: R| r.fault_of())
}

/// The first contract, in checking order, that a result of `rows` fetched
/// with row limit `limit` breaks; none if it meets all five.
pub open spec fn verdict<R: ReportRow>(rows: Seq<R>, limit: nat) -> Option<Contract> {
    if rows.len() != limit {
        Some(Contract::RowCountExact)
    } else if rows.len() == 0 || rows[0].count_of() < 1 {
        Some(Contract::TopRecordHasCount)
    } else if first_fault(faults(rows)) is Some {
        first_fault(faults(rows))
    } else if !non_increasing(counts(rows)) {
        Some(Contract::CountDescending)
    } else {
        None
    }
}

/// The five contracts, stated directly.
pub open spec fn meets_contracts<R: ReportRow>(rows: Seq<R>, limit: nat) -> bool {
    &&& rows.len() == limit
    &&& limit >= 1
    &&& rows[0].count_of() >= 1
    &&& forall|i: int| 0 <= i < rows.len() ==> (#[trigger] rows[i]).fault_of() is None
    &&& forall|i: int, j: int|
        0 <= i <= j < rows.len() ==> (#[trigger] rows[i]).count_of() >= (#[trigger] rows[j]).count_of()
}

/// What a check returns for a verdict.
pub open spec fn outcome(v: Option<Contract>) -> Result<(), Contract> {
    match v {
        None => Ok(()),
        Some(c) => Err(c),
    }
}

/// There is no first fault exactly when no row has a fault.
pub proof fn lemma_first_fault_none(faults: Seq<Option<Contract>>)
    ensures
        first_fault(faults) is None <==> forall|i: int| 0 <= i < faults.len() ==> (#[trigger] faults[i]) is None,
    decreases faults.len(),
{
    if faults.len() > 0 {
        lemma_first_fault_none(faults.drop_first());
        assert forall|i: int| 0 < i < faults.len() implies faults[i] == #[trigger] faults.drop_first()[i - 1] by {}
        if first_fault(faults) is None {
            assert forall|i: int| 0 <= i < faults.len() implies (#[trigger] faults[i]) is None by {
                if i > 0 {
                    assert(faults.drop_first()[i - 1] is None);
                }
            }
        }
        if forall|i: int| 0 <= i < faults.len() ==> (#[trigger] faults[i]) is None {
            assert(faults[0] is None);
            assert forall|i: int| 0 <= i < faults.drop_first().len() implies (#[trigger] faults.drop_first()[i]) is None by {
                assert(faults[i + 1] is None);
            }
        }
    }
}

/// The first fault is the fault of the first row that has one.
pub proof fn lemma_first_fault_at(faults: Seq<Option<Contract>>, k: int)
    requires
        0 <= k < faults.len(),
        faults[k] is Some,
        forall|i: int| 0 <= i < k ==> (#[trigger] faults[i]) is None,
    ensures
        first_fault(faults) == faults[k],
    decreases k,
{
    if k > 0 {
        assert(faults[0] is None);
        assert forall|i: int| 0 <= i < k - 1 implies (#[trigger] faults.drop_first()[i]) is None by {
            assert(faults[i + 1] is None);
        }
        lemma_first_fault_at(faults.drop_first(), k - 1);
    }
}

/// When the result has the right length and a counted top record, the check
/// names the fault of the first row that has one.
pub proof fn lemma_verdict_first_faulty_row<R: ReportRow>(rows: Seq<R>, limit: nat, k: int)
    requires
        rows.len() == limit,
        limit >= 1,
        rows[0].count_of() >= 1,
        0 <= k < rows.len(),
        rows[k].fault_of() is Some,
        forall|j: int| 0 <= j < k ==> (#[trigger] rows[j]).fault_of() is None,
    ensures
        verdict(rows, limit) == rows[k].fault_of(),
{
    let f = faults(rows);
    assert forall|j: int| 0 <= j < k implies (#[trigger] f[j]) is None by {
        assert(rows[j].fault_of() is None);
    }
    lemma_first_fault_at(f, k);
}

/// Counts that never increase from one row to the next never increase over any
/// span of rows, and conversely.
pub proof fn lemma_non_increasing_sorted(counts: Seq<i64>)
    ensures
        non_increasing(counts) <==> sorted_descending(counts),
{
    if non_increasing(counts) {
        assert forall|i: int, j: int| 0 <= i <= j < counts.len() implies #[trigger] counts[i] >= #[trigger] counts[j] by {
            lemma_span_descends(counts, i, j);
        }
    }
    if sorted_descending(counts) {
        assert forall|i: int, j: int| 0 <= i && j == i + 1 && j < counts.len() implies #[trigger] counts[i] >= #[trigger] counts[j] by {
            assert(0 <= i <= j < counts.len());
        }
    }
}

proof fn lemma_span_descends(counts: Seq<i64>, i: int, j: int)
    requires
        non_increasing(counts),
        0 <= i <= j < counts.len(),
    ensures
        counts[i] >= counts[j],
    decreases j - i,
{
    if i < j {
        lemma_span_descends(counts, i + 1, j);
        assert(counts[i] >= counts[i + 1]);
    }
}

/// A result passes the checks exactly when it meets the five contracts.
pub proof fn lemma_verdict_none<R: ReportRow>(rows: Seq<R>, limit: nat)
    ensures
        verdict(rows, limit) is None <==> meets_contracts(rows, limit),
{
    lemma_first_fault_none(faults(rows));
    lemma_non_increasing_sorted(counts(rows));
    assert forall|i: int| 0 <= i < rows.len() implies #[trigger] counts(rows)[i] == rows[i].count_of() by {}
    if sorted_descending(counts(rows)) {
        assert forall|i: int, j: int| 0 <= i <= j < rows.len() implies (#[trigger] rows[i]).count_of()
            >= (#[trigger] rows[j]).count_of() by {
            assert(counts(rows)[i] >= counts(rows)[j]);
        }
    }
    if forall|i: int, j: int|
        0 <= i <= j < rows.len() ==> (#[trigger] rows[i]).count_of() >= (#[trigger] rows[j]).count_of() {
        assert forall|i: int, j: int| 0 <= i <= j < counts(rows).len() implies #[trigger] counts(rows)[i]
            >= #[trigger] counts(rows)[j] by {
            assert(rows[i].count_of() >= rows[j].count_of());
        }
    }
    if rows.len() == limit {
        assert forall|i: int| 0 <= i < rows.len() implies (#[trigger] faults(rows)[i]) == rows[i].fault_of() by {}
        if forall|i: int| 0 <= i < rows.len() ==> (#[trigger] rows[i]).fault_of() is None {
            assert forall|i: int| 0 <= i < faults(rows).len() implies (#[trigger] faults(rows)[i]) is None by {
                assert(rows[i].fault_of() is None);
            }
        }
        if forall|i: int| 0 <= i < faults(rows).len() ==> (#[trigger] faults(rows)[i]) is None {
            assert forall|i: int| 0 <= i < rows.len() implies (#[trigger] rows[i]).fault_of() is None by {
                assert(faults(rows)[i] is None);
            }
        }
    }
}

/// Checks a fetched result against the five contracts, in order, and returns
/// the first one it breaks.
pub fn check_rows<R: ReportRow>(rows: &[R], limit: usize) -> (r: Result<(), Contract>)
    ensures
        r == outcome(verdict(rows@, limit as nat)),
        r is Ok <==> meets_contracts(rows@, limit as nat),
{
    proof {
        lemma_verdict_none(rows@, limit as nat);
    }
    if rows.len() != limit {
        return Err(Contract::RowCountExact);
    }
    if rows.len() == 0 || rows[0].count() < 1 {
        return Err(Contract::TopRecordHasCount);
    }
    let n = rows.len();
    let mut i: usize = 0;
    while i < n
        invariant
            n == rows@.len(),
            n == limit,
            rows@[0].count_of() >= 1,
            i <= n,
            forall|j: int| 0 <= j < i ==> (#[trigger] faults(rows@)[j]) is None,
        decreases n - i,
    {
        let f = rows[i].fault();
        assert(faults(rows@)[i as int] == f);
        if let Some(c) = f {
            proof {
                lemma_first_fault_at(faults(rows@), i as int);
            }
            return Err(c);
        }
        i += 1;
    }
    proof {
        lemma_first_fault_none(faults(rows@));
    }
    let mut k: usize = 1;
    while k < n
        invariant
            n == rows@.len(),
            n == limit,
            rows@[0].count_of() >= 1,
            first_fault(faults(rows@)) is None,
            1 <= k <= n,
            forall|a: int, b: int|
                0 <= a && b == a + 1 && b < k ==> #[trigger] counts(rows@)[a] >= #[trigger] counts(rows@)[b],
        decreases n - k,
    {
        let prev = rows[k - 1].count();
        let cur = rows[k].count();
        assert(counts(rows@)[k - 1] == prev && counts(rows@)[k as int] == cur);
        if prev < cur {
            return Err(Contract::CountDescending);
        }
        k += 1;
    }
    Ok(())
}

} // verus!
