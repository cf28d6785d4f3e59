//! A day's cases and hospitalizations joined, with per-capita rates.
use crate::cases::{cohort_population, CasesByVacStatus};
use crate::checks::{hundred_k, hundred_k_spec};
use crate::decimal::{
    checked_div, checked_mul, compare, decimal_product, decimal_quotient, decimal_text,
    decimal_to_text, round_dp, Dec,
};
use crate::error::{DataError, Fault};
use crate::hosp::HospitalizationByVacStatus;
use crate::text::{i64_text, int_text};
use vstd::prelude::*;
use vstd::string::StringExecFns;

verus! {

/// The cases and hospitalizations of one day.
#[derive(Clone, Copy, Debug)]
pub struct DayReport {
    pub cases: CasesByVacStatus,
    pub hosps: HospitalizationByVacStatus,
}

/// A cohort's case count recomputed from its population and rate:
/// `population * (rate / 100000)`, rounded to a whole number. `None` where the
/// population or the rate is unavailable or the arithmetic overflows.
pub open spec fn recount(population: Option<Dec>, rate: Option<Dec>) -> Option<Dec> {
    match (population, rate) {
        (None, _) => None,
        (_, None) => None,
        (Some(p), Some(rate)) => match decimal_quotient(rate, hundred_k_spec()) {
            None => None,
            Some(q) => match decimal_product(p, q) {
                None => None,
                Some(n) => Some(n.round_dp_spec(0)),
            },
        },
    }
}

/// The recomputed count agrees with the reported one.
pub open spec fn agrees(recounted: Option<Dec>, reported: i64) -> bool {
    recounted matches Some(n) && n.same_value(Dec::from_int_spec(reported))
}

pub open spec fn recount_text(recounted: Option<Dec>) -> Seq<char> {
    match recounted {
        Some(n) => decimal_text(n),
        None => "overflow"@,
    }
}

/// Admissions per 100,000 of a cohort: `count * 100000 / population`, zero for a
/// zero population. `None` where the population is unavailable or the
/// arithmetic overflows.
pub open spec fn rate_of(count: i64, population: Option<Dec>) -> Option<Dec> {
    match population {
        None => None,
        Some(p) => if p.is_zero_spec() {
            Some(Dec::from_int_spec(0))
        } else {
            match decimal_product(Dec::from_int_spec(count), hundred_k_spec()) {
                Some(x) => decimal_quotient(x, p),
                None => None,
            }
        },
    }
}

fn recount_exec(population: Option<Dec>, rate: Option<Dec>) -> (r: Option<Dec>)
    requires
        population matches Some(p) ==> p.wf(),
        rate matches Some(v) ==> v.wf(),
    ensures
        r == recount(population, rate),
        r matches Some(n) ==> n.wf(),
{
    match (population, rate) {
        (None, _) => None,
        (_, None) => None,
        (Some(p), Some(rate)) => match checked_div(rate, hundred_k()) {
            None => None,
            Some(q) => match checked_mul(p, q) {
                None => None,
                Some(n) => Some(round_dp(n, 0)),
            },
        },
    }
}

fn agrees_exec(recounted: Option<Dec>, reported: i64) -> (r: bool)
    requires
        recounted matches Some(n) ==> n.wf(),
    ensures
        r == agrees(recounted, reported),
{
    match recounted {
        Some(n) => compare(n, Dec::from_int(reported)) == 0,
        None => false,
    }
}

fn recount_string(recounted: Option<Dec>) -> (r: String)
    requires
        recounted matches Some(n) ==> n.wf(),
    ensures
        r@ == recount_text(recounted),
{
    match recounted {
        Some(n) => decimal_to_text(n),
        None => String::from_str("overflow"),
    }
}

fn rate_exec(count: i64, population: Option<Dec>) -> (r: Option<Dec>)
    requires
        population matches Some(p) ==> p.wf(),
    ensures
        r == rate_of(count, population),
        r matches Some(d) ==> d.wf(),
{
    match population {
        None => None,
        Some(p) => if p.is_zero() {
            Some(Dec::zero())
        } else {
            match checked_mul(Dec::from_int(count), hundred_k()) {
                Some(x) => checked_div(x, p),
                None => None,
            }
        },
    }
}

impl DayReport {
    pub open spec fn wf(self) -> bool {
        self.cases.wf() && self.hosps.wf()
    }

    pub open spec fn unvac_population(self) -> Option<Dec> {
        cohort_population(self.cases.covid19_cases_unvac, self.cases.cases_unvac_rate_per100k)
    }

    pub open spec fn full_vac_population(self) -> Option<Dec> {
        cohort_population(
            Some(self.cases.covid19_cases_full_vac),
            self.cases.cases_full_vac_rate_per100k,
        )
    }

    pub open spec fn partial_vac_population(self) -> Option<Dec> {
        cohort_population(
            self.cases.covid19_cases_partial_vac,
            self.cases.cases_partial_vac_rate_per100k,
        )
    }

    pub open spec fn unvac_recount(self) -> Option<Dec> {
        recount(self.unvac_population(), self.cases.cases_unvac_rate_per100k)
    }

    pub open spec fn full_vac_recount(self) -> Option<Dec> {
        recount(self.full_vac_population(), self.cases.cases_full_vac_rate_per100k)
    }

    /// The outcome of validation: each record's own, then equal dates, then the
    /// unvaccinated count (when it and its rate are known) and the fully
    /// vaccinated count (when its rate is known) recomputed from population and
    /// rate.
    pub open spec fn validation(self) -> Result<(), Fault> {
        match self.cases.validation() {
            Err(f) => Err(f),
            Ok(_) => match self.hosps.validation() {
                Err(f) => Err(f),
                Ok(_) => if self.cases.date != self.hosps.date {
                    Err(Fault::Invalid("cases and hospitalization dates do not match"@))
                } else if self.cases.covid19_cases_unvac is Some
                    && self.cases.cases_unvac_rate_per100k is Some && !agrees(
                    self.unvac_recount(),
                    self.cases.covid19_cases_unvac->Some_0,
                ) {
                    Err(
                        Fault::Problem(
                            "The unvac cases for "@ + self.cases.date.key_text()
                                + " did not match calculated: "@ + recount_text(
                                self.unvac_recount(),
                            ) + " expected: "@ + int_text(
                                self.cases.covid19_cases_unvac->Some_0 as int,
                            ),
                        ),
                    )
                } else if self.cases.cases_full_vac_rate_per100k is Some && !agrees(
                    self.full_vac_recount(),
                    self.cases.covid19_cases_full_vac,
                ) {
                    Err(
                        Fault::Problem(
                            "The full vac cases did not match calculated: "@ + recount_text(
                                self.full_vac_recount(),
                            ) + " expected: "@ + int_text(
                                self.cases.covid19_cases_full_vac as int,
                            ),
                        ),
                    )
                } else {
                    Ok(())
                },
            },
        }
    }

    /// Joins a day's two records.
    pub fn from(cases: CasesByVacStatus, hosps: HospitalizationByVacStatus) -> (r: Self)
        ensures
            r.cases == cases,
            r.hosps == hosps,
    {
        DayReport { cases, hosps }
    }

    /// The day's key, `YYYYMMDD`.
    pub fn key(&self) -> (r: String)
        requires
            self.wf(),
        ensures
            r@ == self.cases.date.key_text(),
    {
        self.cases.date.key()
    }

    /// Validates both records, that their dates are equal, and that the case
    /// counts of the unvaccinated and fully vaccinated cohorts agree with their
    /// rates once rounded.
    pub fn validate(&self) -> (r: Result<(), DataError>)
        requires
            self.wf(),
        ensures
            crate::error::outcome_view(r) == self.validation(),
    {
        match self.cases.validate() {
            Err(e) => return Err(e),
            Ok(()) => {},
        }
        match self.hosps.validate() {
            Err(e) => return Err(e),
            Ok(()) => {},
        }
        if self.cases.date != self.hosps.date {
            return Err(
                DataError::Invalid(String::from_str("cases and hospitalization dates do not match")),
            );
        }
        if let (Some(c), Some(_)) = (
            self.cases.covid19_cases_unvac,
            self.cases.cases_unvac_rate_per100k,
        ) {
            let n = recount_exec(
                self.cases.calc_unvac_population(),
                self.cases.cases_unvac_rate_per100k,
            );
            if !agrees_exec(n, c) {
                let mut msg = String::from_str("The unvac cases for ");
                msg.append(self.key().as_str());
                msg.append(" did not match calculated: ");
                msg.append(recount_string(n).as_str());
                msg.append(" expected: ");
                msg.append(i64_text(c).as_str());
                return Err(DataError::Problem(msg));
            }
        }
        let n = recount_exec(
            self.cases.calc_full_vac_population(),
            self.cases.cases_full_vac_rate_per100k,
        );
        if self.cases.cases_full_vac_rate_per100k.is_some() && !agrees_exec(
            n,
            self.cases.covid19_cases_full_vac,
        ) {
            let mut msg = String::from_str("The full vac cases did not match calculated: ");
            msg.append(recount_string(n).as_str());
            msg.append(" expected: ");
            msg.append(i64_text(self.cases.covid19_cases_full_vac).as_str());
            return Err(DataError::Problem(msg));
        }
        Ok(())
    }

    /// ICU admissions per 100,000 unvaccinated; `None` where that population is
    /// unavailable.
    pub fn icu_unvac_rate_per100k(&self) -> (r: Option<Dec>)
        requires
            self.wf(),
        ensures
            r == rate_of(self.hosps.icu_unvac, self.unvac_population()),
            r matches Some(d) ==> d.wf(),
    {
        rate_exec(self.hosps.icu_unvac, self.cases.calc_unvac_population())
    }

    /// ICU admissions per 100,000 fully vaccinated.
    pub fn icu_full_vac_rate_per100k(&self) -> (r: Option<Dec>)
        requires
            self.wf(),
        ensures
            r == rate_of(self.hosps.icu_full_vac, self.full_vac_population()),
            r matches Some(d) ==> d.wf(),
    {
        rate_exec(self.hosps.icu_full_vac, self.cases.calc_full_vac_population())
    }

    /// ICU admissions per 100,000 partially vaccinated.
    pub fn icu_partial_vac_rate_per100k(&self) -> (r: Option<Dec>)
        requires
            self.wf(),
        ensures
            r == rate_of(self.hosps.icu_partial_vac, self.partial_vac_population()),
            r matches Some(d) ==> d.wf(),
    {
        rate_exec(self.hosps.icu_partial_vac, self.cases.calc_partial_vac_population())
    }

    /// Non-ICU admissions per 100,000 unvaccinated; `None` where that population
    /// is unavailable.
    pub fn nonicu_unvac_rate_per100k(&self) -> (r: Option<Dec>)
        requires
            self.wf(),
        ensures
            r == rate_of(self.hosps.hospitalnonicu_unvac, self.unvac_population()),
            r matches Some(d) ==> d.wf(),
    {
        rate_exec(self.hosps.hospitalnonicu_unvac, self.cases.calc_unvac_population())
    }

    /// Non-ICU admissions per 100,000 fully vaccinated.
    pub fn nonicu_full_vac_rate_per100k(&self) -> (r: Option<Dec>)
        requires
            self.wf(),
        ensures
            r == rate_of(self.hosps.hospitalnonicu_full_vac, self.full_vac_population()),
            r matches Some(d) ==> d.wf(),
    {
        rate_exec(self.hosps.hospitalnonicu_full_vac, self.cases.calc_full_vac_population())
    }

    /// Non-ICU admissions per 100,000 partially vaccinated.
    pub fn nonicu_partial_vac_rate_per100k(&self) -> (r: Option<Dec>)
        requires
            self.wf(),
        ensures
            r == rate_of(self.hosps.hospitalnonicu_partial_vac, self.partial_vac_population()),
            r matches Some(d) ==> d.wf(),
    {
        rate_exec(self.hosps.hospitalnonicu_partial_vac, self.cases.calc_partial_vac_population())
    }
}

} // verus!
