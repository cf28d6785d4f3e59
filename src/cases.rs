//! Case counts and case rates per vaccination cohort for one day.
use crate::checks::{
    check_count, check_optional_count, check_optional_rate, count_issue, either, hundred_k,
    hundred_k_spec, optional_count_issue, optional_rate_issue,
};
use crate::date::Date;
use crate::decimal::{checked_div, checked_mul, decimal_product, decimal_quotient, Dec};
use crate::error::{DataError, Fault};
use crate::row::{
    count_field, date_field, number_field, optional_count_field, rate_field, read_count,
    read_date, read_number, read_optional_count, read_rate, RawValue,
};
use vstd::prelude::*;

verus! {

/// One day's cases by vaccination status. Only the fully vaccinated count is
/// always known; the other counts and every rate may be absent ("not fully
/// vaccinated" and boosted appear in the newer layout only).
#[derive(Clone, Copy, Debug)]
pub struct CasesByVacStatus {
    pub id: i64,
    pub date: Date,
    pub covid19_cases_unvac: Option<i64>,
    pub covid19_cases_partial_vac: Option<i64>,
    pub covid19_cases_notfull_vac: Option<i64>,
    pub covid19_cases_full_vac: i64,
    pub covid19_cases_boost_vac: Option<i64>,
    pub covid19_cases_vac_unknown: Option<i64>,
    pub cases_unvac_rate_per100k: Option<Dec>,
    pub cases_partial_vac_rate_per100k: Option<Dec>,
    pub cases_notfull_vac_rate_per100k: Option<Dec>,
    pub cases_full_vac_rate_per100k: Option<Dec>,
    pub cases_boost_vac_rate_per100k: Option<Dec>,
    pub cases_unvac_rate_7ma: Option<Dec>,
    pub cases_partial_vac_rate_7ma: Option<Dec>,
    pub cases_notfull_vac_rate_7ma: Option<Dec>,
    pub cases_full_vac_rate_7ma: Option<Dec>,
    pub cases_boost_vac_rate_7ma: Option<Dec>,
}

pub open spec fn optional_dec_wf(d: Option<Dec>) -> bool {
    d matches Some(v) ==> v.wf()
}

/// The population of a cohort, from its case count and its rate per 100,000:
/// `cases * 100000 / rate`, and zero for a zero rate. `None` where the decimal
/// arithmetic overflows.
pub open spec fn population_of(cases: i64, rate: Dec) -> Option<Dec> {
    if rate.is_zero_spec() {
        Some(Dec::from_int_spec(0))
    } else {
        match decimal_product(Dec::from_int_spec(cases), hundred_k_spec()) {
            Some(p) => decimal_quotient(p, rate),
            None => None,
        }
    }
}

/// The population of a cohort whose count or rate may be absent: `None` where
/// either is.
pub open spec fn cohort_population(cases: Option<i64>, rate: Option<Dec>) -> Option<Dec> {
    match (cases, rate) {
        (Some(c), Some(r)) => population_of(c, r),
        _ => None,
    }
}

/// Back-computes a cohort's population from its case count and rate per
/// 100,000; a zero rate gives a zero population.
pub fn compute_total_population_from_cases_and_rate(cases: i64, rate: Dec) -> (r: Option<Dec>)
    requires
        rate.wf(),
    ensures
        r == population_of(cases, rate),
        r matches Some(p) ==> p.wf(),
        rate.is_zero_spec() ==> r == Some(Dec::from_int_spec(0)),
{
    if rate.is_zero() {
        return Some(Dec::zero());
    }
    match checked_mul(Dec::from_int(cases), hundred_k()) {
        Some(p) => checked_div(p, rate),
        None => None,
    }
}

fn cohort_population_exec(cases: Option<i64>, rate: Option<Dec>) -> (r: Option<Dec>)
    requires
        optional_dec_wf(rate),
    ensures
        r == cohort_population(cases, rate),
        r matches Some(p) ==> p.wf(),
{
    match (cases, rate) {
        (Some(c), Some(v)) => compute_total_population_from_cases_and_rate(c, v),
        _ => None,
    }
}

impl CasesByVacStatus {
    pub open spec fn wf(self) -> bool {
        &&& self.date.wf()
        &&& optional_dec_wf(self.cases_unvac_rate_per100k)
        &&& optional_dec_wf(self.cases_partial_vac_rate_per100k)
        &&& optional_dec_wf(self.cases_notfull_vac_rate_per100k)
        &&& optional_dec_wf(self.cases_full_vac_rate_per100k)
        &&& optional_dec_wf(self.cases_boost_vac_rate_per100k)
        &&& optional_dec_wf(self.cases_unvac_rate_7ma)
        &&& optional_dec_wf(self.cases_partial_vac_rate_7ma)
        &&& optional_dec_wf(self.cases_notfull_vac_rate_7ma)
        &&& optional_dec_wf(self.cases_full_vac_rate_7ma)
        &&& optional_dec_wf(self.cases_boost_vac_rate_7ma)
    }

    /// The text of the first value out of range, in field order: a date before
    /// 2020-07-01, a negative count, a rate outside `[0, 100000]`.
    pub open spec fn first_invalid(self) -> Option<Seq<char>> {
        if self.date.before(Date::first_recorded_spec()) {
            Some(self.date.iso_text())
        } else {
            either(either(optional_count_issue(self.covid19_cases_unvac), either(optional_count_issue(self.covid19_cases_partial_vac), optional_count_issue(self.covid19_cases_notfull_vac))), either(either(count_issue(self.covid19_cases_full_vac), either(optional_count_issue(self.covid19_cases_boost_vac), optional_count_issue(self.covid19_cases_vac_unknown))), self.first_invalid_rate()))
        }
    }

    pub open spec fn first_invalid_rate(self) -> Option<Seq<char>> {
        either(either(optional_rate_issue(self.cases_unvac_rate_per100k), either(optional_rate_issue(self.cases_partial_vac_rate_per100k), either(optional_rate_issue(self.cases_notfull_vac_rate_per100k), either(optional_rate_issue(self.cases_full_vac_rate_per100k), optional_rate_issue(self.cases_boost_vac_rate_per100k))))), either(optional_rate_issue(self.cases_unvac_rate_7ma), either(optional_rate_issue(self.cases_partial_vac_rate_7ma), either(optional_rate_issue(self.cases_notfull_vac_rate_7ma), either(optional_rate_issue(self.cases_full_vac_rate_7ma), optional_rate_issue(self.cases_boost_vac_rate_7ma))))))
    }

    /// The outcome of validation: `Invalid` with the first offending value's text.
    pub open spec fn validation(self) -> Result<(), Fault> {
        match self.first_invalid() {
            Some(t) => Err(Fault::Invalid(t)),
            None => Ok(()),
        }
    }

    /// Checks that the date is not before 2020-07-01, that no count is negative
    /// and that every rate present lies in `[0, 100000]`.
    pub fn validate(&self) -> (r: Result<(), DataError>)
        requires
            self.wf(),
        ensures
            crate::error::outcome_view(r) == self.validation(),
    {
        if self.date.is_before(&Date::first_recorded()) {
            return Err(DataError::Invalid(self.date.iso()));
        }
        if let Some(t) = check_optional_count(self.covid19_cases_unvac) {
            return Err(DataError::Invalid(t));
        }
        if let Some(t) = check_optional_count(self.covid19_cases_partial_vac) {
            return Err(DataError::Invalid(t));
        }
        if let Some(t) = check_optional_count(self.covid19_cases_notfull_vac) {
            return Err(DataError::Invalid(t));
        }
        if let Some(t) = check_count(self.covid19_cases_full_vac) {
            return Err(DataError::Invalid(t));
        }
        if let Some(t) = check_optional_count(self.covid19_cases_boost_vac) {
            return Err(DataError::Invalid(t));
        }
        if let Some(t) = check_optional_count(self.covid19_cases_vac_unknown) {
            return Err(DataError::Invalid(t));
        }
        if let Some(t) = check_optional_rate(self.cases_unvac_rate_per100k) {
            return Err(DataError::Invalid(t));
        }
        if let Some(t) = check_optional_rate(self.cases_partial_vac_rate_per100k) {
            return Err(DataError::Invalid(t));
        }
        if let Some(t) = check_optional_rate(self.cases_notfull_vac_rate_per100k) {
            return Err(DataError::Invalid(t));
        }
        if let Some(t) = check_optional_rate(self.cases_full_vac_rate_per100k) {
            return Err(DataError::Invalid(t));
        }
        if let Some(t) = check_optional_rate(self.cases_boost_vac_rate_per100k) {
            return Err(DataError::Invalid(t));
        }
        if let Some(t) = check_optional_rate(self.cases_unvac_rate_7ma) {
            return Err(DataError::Invalid(t));
        }
        if let Some(t) = check_optional_rate(self.cases_partial_vac_rate_7ma) {
            return Err(DataError::Invalid(t));
        }
        if let Some(t) = check_optional_rate(self.cases_notfull_vac_rate_7ma) {
            return Err(DataError::Invalid(t));
        }
        if let Some(t) = check_optional_rate(self.cases_full_vac_rate_7ma) {
            return Err(DataError::Invalid(t));
        }
        if let Some(t) = check_optional_rate(self.cases_boost_vac_rate_7ma) {
            return Err(DataError::Invalid(t));
        }
        Ok(())
    }

    /// Population of the unvaccinated cohort; `None` where its count or rate is
    /// absent, or the arithmetic overflows.
    pub fn calc_unvac_population(&self) -> (r: Option<Dec>)
        requires
            self.wf(),
        ensures
            r == cohort_population(self.covid19_cases_unvac, self.cases_unvac_rate_per100k),
            r matches Some(p) ==> p.wf(),
    {
        cohort_population_exec(self.covid19_cases_unvac, self.cases_unvac_rate_per100k)
    }

    /// Population of the fully vaccinated cohort; `None` where its rate is absent
    /// or the arithmetic overflows.
    pub fn calc_full_vac_population(&self) -> (r: Option<Dec>)
        requires
            self.wf(),
        ensures
            r == cohort_population(
                Some(self.covid19_cases_full_vac),
                self.cases_full_vac_rate_per100k,
            ),
            r matches Some(p) ==> p.wf(),
    {
        cohort_population_exec(Some(self.covid19_cases_full_vac), self.cases_full_vac_rate_per100k)
    }

    /// Population of the partially vaccinated cohort; `None` where its count or
    /// rate is absent, or the arithmetic overflows.
    pub fn calc_partial_vac_population(&self) -> (r: Option<Dec>)
        requires
            self.wf(),
        ensures
            r == cohort_population(
                self.covid19_cases_partial_vac,
                self.cases_partial_vac_rate_per100k,
            ),
            r matches Some(p) ==> p.wf(),
    {
        cohort_population_exec(self.covid19_cases_partial_vac, self.cases_partial_vac_rate_per100k)
    }
}

impl Default for CasesByVacStatus {
    /// Id 0, no cases of the fully vaccinated, nothing else known, and a
    /// placeholder date that validation refuses.
    fn default() -> (r: CasesByVacStatus)
        ensures
            r == (CasesByVacStatus {
                id: 0,
                date: Date::placeholder_spec(),
                covid19_cases_unvac: None,
                covid19_cases_partial_vac: None,
                covid19_cases_notfull_vac: None,
                covid19_cases_full_vac: 0,
                covid19_cases_boost_vac: None,
                covid19_cases_vac_unknown: None,
                cases_unvac_rate_per100k: None,
                cases_partial_vac_rate_per100k: None,
                cases_notfull_vac_rate_per100k: None,
                cases_full_vac_rate_per100k: None,
                cases_boost_vac_rate_per100k: None,
                cases_unvac_rate_7ma: None,
                cases_partial_vac_rate_7ma: None,
                cases_notfull_vac_rate_7ma: None,
                cases_full_vac_rate_7ma: None,
                cases_boost_vac_rate_7ma: None,
            }),
    {
        CasesByVacStatus {
            id: 0,
            date: Date::placeholder(),
            covid19_cases_unvac: None,
            covid19_cases_partial_vac: None,
            covid19_cases_notfull_vac: None,
            covid19_cases_full_vac: 0,
            covid19_cases_boost_vac: None,
            covid19_cases_vac_unknown: None,
            cases_unvac_rate_per100k: None,
            cases_partial_vac_rate_per100k: None,
            cases_notfull_vac_rate_per100k: None,
            cases_full_vac_rate_per100k: None,
            cases_boost_vac_rate_per100k: None,
            cases_unvac_rate_7ma: None,
            cases_partial_vac_rate_7ma: None,
            cases_notfull_vac_rate_7ma: None,
            cases_full_vac_rate_7ma: None,
            cases_boost_vac_rate_7ma: None,
        }
    }
}

/// The record that a raw JSON row makes, before validation. Cells 0 to 11 hold
/// the id (a number), the timestamp, four counts and six rates (strings). The
/// id, the timestamp and the partially vaccinated, fully vaccinated and unknown
/// counts are required: a missing cell, one of another kind or a string that
/// does not read fails the row. The unvaccinated count is unknown where it is
/// missing or does not read; a rate is absent where its cell holds no string,
/// and a string that does not read fails the row.
pub open spec fn cases_fields_of_row(row: Seq<RawValue>) -> Result<CasesByVacStatus, Fault> {
    let id = number_field(row, 0);
    let date = date_field(row, 1);
    let partial = count_field(row, 3);
    let full = count_field(row, 4);
    let unknown = count_field(row, 5);
    let r0 = rate_field(row, 6);
    let r1 = rate_field(row, 7);
    let r2 = rate_field(row, 8);
    let a0 = rate_field(row, 9);
    let a1 = rate_field(row, 10);
    let a2 = rate_field(row, 11);
    if id is Err {
        Err(id->Err_0)
    } else if date is Err {
        Err(date->Err_0)
    } else if partial is Err {
        Err(partial->Err_0)
    } else if full is Err {
        Err(full->Err_0)
    } else if unknown is Err {
        Err(unknown->Err_0)
    } else if r0 is Err {
        Err(r0->Err_0)
    } else if r1 is Err {
        Err(r1->Err_0)
    } else if r2 is Err {
        Err(r2->Err_0)
    } else if a0 is Err {
        Err(a0->Err_0)
    } else if a1 is Err {
        Err(a1->Err_0)
    } else if a2 is Err {
        Err(a2->Err_0)
    } else {
        Ok(
            CasesByVacStatus {
                id: id->Ok_0,
                date: date->Ok_0,
                covid19_cases_unvac: optional_count_field(row, 2),
                covid19_cases_partial_vac: Some(partial->Ok_0),
                covid19_cases_notfull_vac: None,
                covid19_cases_full_vac: full->Ok_0,
                covid19_cases_boost_vac: None,
                covid19_cases_vac_unknown: Some(unknown->Ok_0),
                cases_unvac_rate_per100k: r0->Ok_0,
                cases_partial_vac_rate_per100k: r1->Ok_0,
                cases_notfull_vac_rate_per100k: None,
                cases_full_vac_rate_per100k: r2->Ok_0,
                cases_boost_vac_rate_per100k: None,
                cases_unvac_rate_7ma: a0->Ok_0,
                cases_partial_vac_rate_7ma: a1->Ok_0,
                cases_notfull_vac_rate_7ma: None,
                cases_full_vac_rate_7ma: a2->Ok_0,
                cases_boost_vac_rate_7ma: None,
            },
        )
    }
}

/// A record that is read, then validated.
pub open spec fn validated(r: Result<CasesByVacStatus, Fault>) -> Result<CasesByVacStatus, Fault> {
    match r {
        Ok(c) => match c.validation() {
            Ok(_) => Ok(c),
            Err(f) => Err(f),
        },
        Err(f) => Err(f),
    }
}

/// The record of a raw JSON row, validated.
pub open spec fn cases_of_row(row: Seq<RawValue>) -> Result<CasesByVacStatus, Fault> {
    validated(cases_fields_of_row(row))
}

/// Reads a raw JSON row into a validated cases record.
pub fn transform_record(record: &[RawValue]) -> (r: Result<CasesByVacStatus, DataError>)
    ensures
        crate::error::outcome_view(r) == cases_of_row(record@),
        r matches Ok(c) ==> c.wf(),
{
    let id = match read_number(record, 0) {
        Ok(v) => v,
        Err(e) => return Err(e),
    };
    let date = match read_date(record, 1) {
        Ok(d) => d,
        Err(e) => return Err(e),
    };
    let unvac = read_optional_count(record, 2);
    let partial = match read_count(record, 3) {
        Ok(v) => v,
        Err(e) => return Err(e),
    };
    let full = match read_count(record, 4) {
        Ok(v) => v,
        Err(e) => return Err(e),
    };
    let unknown = match read_count(record, 5) {
        Ok(v) => v,
        Err(e) => return Err(e),
    };
    let r0 = match read_rate(record, 6) {
        Ok(v) => v,
        Err(e) => return Err(e),
    };
    let r1 = match read_rate(record, 7) {
        Ok(v) => v,
        Err(e) => return Err(e),
    };
    let r2 = match read_rate(record, 8) {
        Ok(v) => v,
        Err(e) => return Err(e),
    };
    let a0 = match read_rate(record, 9) {
        Ok(v) => v,
        Err(e) => return Err(e),
    };
    let a1 = match read_rate(record, 10) {
        Ok(v) => v,
        Err(e) => return Err(e),
    };
    let a2 = match read_rate(record, 11) {
        Ok(v) => v,
        Err(e) => return Err(e),
    };
    let v = CasesByVacStatus {
        id,
        date,
        covid19_cases_unvac: unvac,
        covid19_cases_partial_vac: Some(partial),
        covid19_cases_notfull_vac: None,
        covid19_cases_full_vac: full,
        covid19_cases_boost_vac: None,
        covid19_cases_vac_unknown: Some(unknown),
        cases_unvac_rate_per100k: r0,
        cases_partial_vac_rate_per100k: r1,
        cases_notfull_vac_rate_per100k: None,
        cases_full_vac_rate_per100k: r2,
        cases_boost_vac_rate_per100k: None,
        cases_unvac_rate_7ma: a0,
        cases_partial_vac_rate_7ma: a1,
        cases_notfull_vac_rate_7ma: None,
        cases_full_vac_rate_7ma: a2,
        cases_boost_vac_rate_7ma: None,
    };
    match v.validate() {
        Ok(()) => Ok(v),
        Err(e) => Err(e),
    }
}

/// One row of the flat CSV layout, columns already typed; blank cells are `None`.
#[derive(Clone, Debug)]
pub struct CsvCase {
    pub date: String,
    pub covid19_cases_unvac: Option<i64>,
    pub covid19_cases_partial_vac: Option<i64>,
    pub covid19_cases_notfull_vac: Option<i64>,
    pub covid19_cases_full_vac: i64,
    pub covid19_cases_boost_vac: Option<i64>,
    pub covid19_cases_vac_unknown: Option<i64>,
    pub cases_unvac_rate_per100k: Option<Dec>,
    pub cases_partial_vac_rate_per100k: Option<Dec>,
    pub cases_notfull_vac_rate_per100k: Option<Dec>,
    pub cases_full_vac_rate_per100k: Option<Dec>,
    pub cases_boost_vac_rate_per100k: Option<Dec>,
    pub cases_unvac_rate_7ma: Option<Dec>,
    pub cases_partial_vac_rate_7ma: Option<Dec>,
    pub cases_notfull_vac_rate_7ma: Option<Dec>,
    pub cases_full_vac_rate_7ma: Option<Dec>,
    pub cases_boost_vac_rate_7ma: Option<Dec>,
}

/// The layout of dates in the CSV layout.
pub const CSV_DATE_FORMAT: &'static str = "%Y-%m-%d";

impl CsvCase {
    pub open spec fn wf(self) -> bool {
        &&& optional_dec_wf(self.cases_unvac_rate_per100k)
        &&& optional_dec_wf(self.cases_partial_vac_rate_per100k)
        &&& optional_dec_wf(self.cases_notfull_vac_rate_per100k)
        &&& optional_dec_wf(self.cases_full_vac_rate_per100k)
        &&& optional_dec_wf(self.cases_boost_vac_rate_per100k)
        &&& optional_dec_wf(self.cases_unvac_rate_7ma)
        &&& optional_dec_wf(self.cases_partial_vac_rate_7ma)
        &&& optional_dec_wf(self.cases_notfull_vac_rate_7ma)
        &&& optional_dec_wf(self.cases_full_vac_rate_7ma)
        &&& optional_dec_wf(self.cases_boost_vac_rate_7ma)
    }
}

/// The record of a CSV row, before validation: the date must read, and every
/// other column is taken as it is, blanks staying absent. The layout has no id.
pub open spec fn cases_fields_of_csv(r: CsvCase) -> Result<CasesByVacStatus, Fault> {
    match crate::date::date_of(r.date@, CSV_DATE_FORMAT@) {
        None => Err(Fault::Date(r.date@)),
        Some(d) => Ok(
            CasesByVacStatus {
                id: 0,
                date: d,
                covid19_cases_unvac: r.covid19_cases_unvac,
                covid19_cases_partial_vac: r.covid19_cases_partial_vac,
                covid19_cases_notfull_vac: r.covid19_cases_notfull_vac,
                covid19_cases_full_vac: r.covid19_cases_full_vac,
                covid19_cases_boost_vac: r.covid19_cases_boost_vac,
                covid19_cases_vac_unknown: r.covid19_cases_vac_unknown,
                cases_unvac_rate_per100k: r.cases_unvac_rate_per100k,
                cases_partial_vac_rate_per100k: r.cases_partial_vac_rate_per100k,
                cases_notfull_vac_rate_per100k: r.cases_notfull_vac_rate_per100k,
                cases_full_vac_rate_per100k: r.cases_full_vac_rate_per100k,
                cases_boost_vac_rate_per100k: r.cases_boost_vac_rate_per100k,
                cases_unvac_rate_7ma: r.cases_unvac_rate_7ma,
                cases_partial_vac_rate_7ma: r.cases_partial_vac_rate_7ma,
                cases_notfull_vac_rate_7ma: r.cases_notfull_vac_rate_7ma,
                cases_full_vac_rate_7ma: r.cases_full_vac_rate_7ma,
                cases_boost_vac_rate_7ma: r.cases_boost_vac_rate_7ma,
            },
        ),
    }
}

/// The record of a CSV row, validated.
pub open spec fn cases_of_csv(r: CsvCase) -> Result<CasesByVacStatus, Fault> {
    validated(cases_fields_of_csv(r))
}

/// Reads a CSV row into a validated cases record.
pub fn transform_csv_record(r: &CsvCase) -> (res: Result<CasesByVacStatus, DataError>)
    requires
        r.wf(),
    ensures
        crate::error::outcome_view(res) == cases_of_csv(*r),
        res matches Ok(c) ==> c.wf(),
{
    let date = match crate::date::parse_date(r.date.as_str(), CSV_DATE_FORMAT) {
        Some(d) => d,
        None => return Err(DataError::Date(r.date.clone())),
    };
    let v = CasesByVacStatus {
        id: 0,
        date,
        covid19_cases_unvac: r.covid19_cases_unvac,
        covid19_cases_partial_vac: r.covid19_cases_partial_vac,
        covid19_cases_notfull_vac: r.covid19_cases_notfull_vac,
        covid19_cases_full_vac: r.covid19_cases_full_vac,
        covid19_cases_boost_vac: r.covid19_cases_boost_vac,
        covid19_cases_vac_unknown: r.covid19_cases_vac_unknown,
        cases_unvac_rate_per100k: r.cases_unvac_rate_per100k,
        cases_partial_vac_rate_per100k: r.cases_partial_vac_rate_per100k,
        cases_notfull_vac_rate_per100k: r.cases_notfull_vac_rate_per100k,
        cases_full_vac_rate_per100k: r.cases_full_vac_rate_per100k,
        cases_boost_vac_rate_per100k: r.cases_boost_vac_rate_per100k,
        cases_unvac_rate_7ma: r.cases_unvac_rate_7ma,
        cases_partial_vac_rate_7ma: r.cases_partial_vac_rate_7ma,
        cases_notfull_vac_rate_7ma: r.cases_notfull_vac_rate_7ma,
        cases_full_vac_rate_7ma: r.cases_full_vac_rate_7ma,
        cases_boost_vac_rate_7ma: r.cases_boost_vac_rate_7ma,
    };
    match v.validate() {
        Ok(()) => Ok(v),
        Err(e) => Err(e),
    }
}

} // verus!
