//! ICU and non-ICU hospital admissions per vaccination cohort for one day.
use crate::checks::{check_count, count_issue, either};
use crate::date::Date;
use crate::error::{DataError, Fault};
use crate::row::{date_field, number_field, read_date, read_number, RawValue};
use crate::text::{i64_text, int_text};
use vstd::prelude::*;

verus! {

/// One day's hospitalizations by vaccination status.
#[derive(Clone, Copy, Debug)]
pub struct HospitalizationByVacStatus {
    pub id: i64,
    pub date: Date,
    pub icu_unvac: i64,
    pub icu_partial_vac: i64,
    pub icu_full_vac: i64,
    pub hospitalnonicu_unvac: i64,
    pub hospitalnonicu_partial_vac: i64,
    pub hospitalnonicu_full_vac: i64,
}

impl HospitalizationByVacStatus {
    pub open spec fn wf(self) -> bool {
        self.date.wf()
    }

    /// The text of the first value out of range, in field order: an id below 1,
    /// a date before 2020-07-01, a negative count.
    pub open spec fn first_invalid(self) -> Option<Seq<char>> {
        if self.id < 1 {
            Some(int_text(self.id as int))
        } else if self.date.before(Date::first_recorded_spec()) {
            Some(self.date.iso_text())
        } else {
            either(
                count_issue(self.icu_unvac),
                either(
                    count_issue(self.icu_partial_vac),
                    either(
                        count_issue(self.icu_full_vac),
                        either(
                            count_issue(self.hospitalnonicu_unvac),
                            either(
                                count_issue(self.hospitalnonicu_partial_vac),
                                count_issue(self.hospitalnonicu_full_vac),
                            ),
                        ),
                    ),
                ),
            )
        }
    }

    pub open spec fn validation(self) -> Result<(), Fault> {
        match self.first_invalid() {
            Some(t) => Err(Fault::Invalid(t)),
            None => Ok(()),
        }
    }

    /// Checks that the id is positive, the date not before 2020-07-01 and no
    /// count negative.
    pub fn validate(&self) -> (r: Result<(), DataError>)
        requires
            self.wf(),
        ensures
            crate::error::outcome_view(r) == self.validation(),
    {
        if self.id < 1 {
            return Err(DataError::Invalid(i64_text(self.id)));
        }
        if self.date.is_before(&Date::first_recorded()) {
            return Err(DataError::Invalid(self.date.iso()));
        }
        if let Some(t) = check_count(self.icu_unvac) {
            return Err(DataError::Invalid(t));
        }
        if let Some(t) = check_count(self.icu_partial_vac) {
            return Err(DataError::Invalid(t));
        }
        if let Some(t) = check_count(self.icu_full_vac) {
            return Err(DataError::Invalid(t));
        }
        if let Some(t) = check_count(self.hospitalnonicu_unvac) {
            return Err(DataError::Invalid(t));
        }
        if let Some(t) = check_count(self.hospitalnonicu_partial_vac) {
            return Err(DataError::Invalid(t));
        }
        if let Some(t) = check_count(self.hospitalnonicu_full_vac) {
            return Err(DataError::Invalid(t));
        }
        Ok(())
    }
}

impl Default for HospitalizationByVacStatus {
    /// No admissions, id 0 and a placeholder date, which validation refuses.
    fn default() -> (r: HospitalizationByVacStatus)
        ensures
            r == (HospitalizationByVacStatus {
                id: 0,
                date: Date::placeholder_spec(),
                icu_unvac: 0,
                icu_partial_vac: 0,
                icu_full_vac: 0,
                hospitalnonicu_unvac: 0,
                hospitalnonicu_partial_vac: 0,
                hospitalnonicu_full_vac: 0,
            }),
    {
        HospitalizationByVacStatus {
            id: 0,
            date: Date::placeholder(),
            icu_unvac: 0,
            icu_partial_vac: 0,
            icu_full_vac: 0,
            hospitalnonicu_unvac: 0,
            hospitalnonicu_partial_vac: 0,
            hospitalnonicu_full_vac: 0,
        }
    }
}

/// The record of a raw JSON row: cells 0 to 7 hold the id, the timestamp and
/// six counts as numbers. Every cell is required: the first that is missing, of
/// another kind or unreadable fails the row. Then the record is validated.
pub open spec fn hosp_of_row(row: Seq<RawValue>) -> Result<HospitalizationByVacStatus, Fault> {
    let id = number_field(row, 0);
    let date = date_field(row, 1);
    let c0 = number_field(row, 2);
    let c1 = number_field(row, 3);
    let c2 = number_field(row, 4);
    let c3 = number_field(row, 5);
    let c4 = number_field(row, 6);
    let c5 = number_field(row, 7);
    if id is Err {
        Err(id->Err_0)
    } else if date is Err {
        Err(date->Err_0)
    } else if c0 is Err {
        Err(c0->Err_0)
    } else if c1 is Err {
        Err(c1->Err_0)
    } else if c2 is Err {
        Err(c2->Err_0)
    } else if c3 is Err {
        Err(c3->Err_0)
    } else if c4 is Err {
        Err(c4->Err_0)
    } else if c5 is Err {
        Err(c5->Err_0)
    } else {
        let h = HospitalizationByVacStatus {
            id: id->Ok_0,
            date: date->Ok_0,
            icu_unvac: c0->Ok_0,
            icu_partial_vac: c1->Ok_0,
            icu_full_vac: c2->Ok_0,
            hospitalnonicu_unvac: c3->Ok_0,
            hospitalnonicu_partial_vac: c4->Ok_0,
            hospitalnonicu_full_vac: c5->Ok_0,
        };
        match h.validation() {
            Ok(_) => Ok(h),
            Err(f) => Err(f),
        }
    }
}

/// Reads a raw JSON row into a validated hospitalization record.
pub fn transform_hosp_record(record: &[RawValue]) -> (r: Result<
    HospitalizationByVacStatus,
    DataError,
>)
    ensures
        crate::error::outcome_view(r) == hosp_of_row(record@),
        r matches Ok(h) ==> h.wf(),
{
    let id = match read_number(record, 0) {
        Ok(v) => v,
        Err(e) => return Err(e),
    };
    let date = match read_date(record, 1) {
        Ok(d) => d,
        Err(e) => return Err(e),
    };
    let c0 = match read_number(record, 2) {
        Ok(v) => v,
        Err(e) => return Err(e),
    };
    let c1 = match read_number(record, 3) {
        Ok(v) => v,
        Err(e) => return Err(e),
    };
    let c2 = match read_number(record, 4) {
        Ok(v) => v,
        Err(e) => return Err(e),
    };
    let c3 = match read_number(record, 5) {
        Ok(v) => v,
        Err(e) => return Err(e),
    };
    let c4 = match read_number(record, 6) {
        Ok(v) => v,
        Err(e) => return Err(e),
    };
    let c5 = match read_number(record, 7) {
        Ok(v) => v,
        Err(e) => return Err(e),
    };
    let v = HospitalizationByVacStatus {
        id,
        date,
        icu_unvac: c0,
        icu_partial_vac: c1,
        icu_full_vac: c2,
        hospitalnonicu_unvac: c3,
        hospitalnonicu_partial_vac: c4,
        hospitalnonicu_full_vac: c5,
    };
    match v.validate() {
        Ok(()) => Ok(v),
        Err(e) => Err(e),
    }
}

} // verus!
