//! Joins the two datasets by date into day reports, in date order, and keeps
//! account of every row that was set aside and why.
use crate::cases::CasesByVacStatus;
use crate::dataset::{
    cases_schema, field_views, hosp_schema, schema_check, CasesByVacStatusRoot,
    HospitalizationByVacStatusRoot,
};
use crate::cases::{cases_of_row, transform_record};
use crate::date::Date;
use crate::decimal::{round_dp, Dec};
use crate::hosp::{hosp_of_row, transform_hosp_record};
use crate::index::{str_views, Index};
use crate::report::rate_of;
use crate::error::{outcome_view, outcome_views, DataError, Fault};
use crate::hosp::HospitalizationByVacStatus;
use crate::report::DayReport;
use std::collections::HashMap;
use vstd::prelude::*;

verus! {

broadcast use vstd::std_specs::hash::group_hash_axioms;

/// Why a row or a report was set aside.
#[derive(Clone, Debug)]
pub enum Discard {
    /// A row that could not be read into a record.
    Unreadable(DataError),
    /// A cases record that validation refused.
    InvalidCases(DataError),
    /// A cases record without a hospitalization record of its date.
    Unmatched(Date),
    /// A joined report that validation refused, with the report's key.
    InvalidReport(String, DataError),
}

/// A discard as a value of specifications.
pub enum DiscardView {
    Unreadable(Fault),
    InvalidCases(Fault),
    Unmatched(Date),
    InvalidReport(Seq<char>, Fault),
}

impl View for Discard {
    type V = DiscardView;

    open spec fn view(&self) -> DiscardView {
        match self {
            Discard::Unreadable(e) => DiscardView::Unreadable(e@),
            Discard::InvalidCases(e) => DiscardView::InvalidCases(e@),
            Discard::Unmatched(d) => DiscardView::Unmatched(*d),
            Discard::InvalidReport(k, e) => DiscardView::InvalidReport(k@, e@),
        }
    }
}

pub open spec fn discard_views(v: Seq<Discard>) -> Seq<DiscardView> {
    Seq::new(v.len(), |i: int| v[i]@)
}

/// The reports of a run, in date order, and what was set aside.
pub struct Batch {
    pub reports: Vec<DayReport>,
    pub discarded: Vec<Discard>,
    /// Hospitalization records that no cases record claimed.
    pub orphaned: usize,
}

/// The key under which a hospitalization record waits for its cases record.
pub open spec fn date_slot(d: Date) -> i64 {
    d.ordinal() as i64
}

/// Hospitalization records by date; a later record of a date replaces an
/// earlier one.
pub open spec fn hosp_by_date(hosps: Seq<Result<HospitalizationByVacStatus, Fault>>) -> Map<
    i64,
    HospitalizationByVacStatus,
>
    decreases hosps.len(),
{
    if hosps.len() == 0 {
        Map::empty()
    } else {
        let m = hosp_by_date(hosps.drop_last());
        match hosps.last() {
            Ok(h) => m.insert(date_slot(h.date), h),
            Err(_) => m,
        }
    }
}

/// The hospitalization rows that could not be read, in order.
pub open spec fn hosp_discards(hosps: Seq<Result<HospitalizationByVacStatus, Fault>>) -> Seq<
    DiscardView,
>
    decreases hosps.len(),
{
    if hosps.len() == 0 {
        Seq::empty()
    } else {
        let d = hosp_discards(hosps.drop_last());
        match hosps.last() {
            Ok(_) => d,
            Err(e) => d.push(DiscardView::Unreadable(e)),
        }
    }
}

/// Where the join stands: records still waiting, reports made, rows set aside.
pub struct JoinState {
    pub waiting: Map<i64, HospitalizationByVacStatus>,
    pub reports: Seq<DayReport>,
    pub discarded: Seq<DiscardView>,
}

/// One cases row joined: a readable, valid record takes the waiting record of
/// its date, and the report they make is kept if it validates.
pub open spec fn join_step(s: JoinState, row: Result<CasesByVacStatus, Fault>) -> JoinState {
    match row {
        Err(e) => JoinState { discarded: s.discarded.push(DiscardView::Unreadable(e)), ..s },
        Ok(c) => match c.validation() {
            Err(f) => JoinState { discarded: s.discarded.push(DiscardView::InvalidCases(f)), ..s },
            Ok(_) => {
                let k = date_slot(c.date);
                if s.waiting.contains_key(k) {
                    let report = DayReport { cases: c, hosps: s.waiting[k] };
                    let waiting = s.waiting.remove(k);
                    match report.validation() {
                        Ok(_) => JoinState { waiting, reports: s.reports.push(report), ..s },
                        Err(f) => JoinState {
                            waiting,
                            discarded: s.discarded.push(
                                DiscardView::InvalidReport(c.date.key_text(), f),
                            ),
                            ..s
                        },
                    }
                } else {
                    JoinState { discarded: s.discarded.push(DiscardView::Unmatched(c.date)), ..s }
                }
            },
        },
    }
}

/// The join of all cases rows, in order, against the waiting records.
pub open spec fn join_all(
    waiting: Map<i64, HospitalizationByVacStatus>,
    cases: Seq<Result<CasesByVacStatus, Fault>>,
) -> JoinState
    decreases cases.len(),
{
    if cases.len() == 0 {
        JoinState { waiting, reports: Seq::empty(), discarded: Seq::empty() }
    } else {
        join_step(join_all(waiting, cases.drop_last()), cases.last())
    }
}

pub open spec fn report_slot(r: DayReport) -> int {
    r.cases.date.ordinal()
}

/// Reports in strictly increasing date order: one per date.
pub open spec fn date_ordered(s: Seq<DayReport>) -> bool {
    forall|i: int, j: int|
        0 <= i < j < s.len() ==> report_slot(#[trigger] s[i]) < report_slot(#[trigger] s[j])
}

pub open spec fn all_cases_wf<E>(v: Seq<Result<CasesByVacStatus, E>>) -> bool {
    forall|i: int| 0 <= i < v.len() ==> (#[trigger] v[i] matches Ok(c) ==> c.wf())
}

pub open spec fn all_hosps_wf<E>(v: Seq<Result<HospitalizationByVacStatus, E>>) -> bool {
    forall|i: int| 0 <= i < v.len() ==> (#[trigger] v[i] matches Ok(h) ==> h.wf())
}

fn discard_of(e: &DataError) -> (r: Discard)
    ensures
        r@ == DiscardView::Unreadable(e@),
{
    Discard::Unreadable(e.duplicate())
}

/// Inserts a report of a date that none of the reports has, keeping date order.
fn insert_in_order(v: &mut Vec<DayReport>, r: DayReport)
    requires
        date_ordered(old(v)@),
        forall|j: int|
            0 <= j < old(v)@.len() ==> report_slot(#[trigger] old(v)@[j]) != report_slot(r),
    ensures
        date_ordered(final(v)@),
        final(v)@.to_multiset() == old(v)@.to_multiset().insert(r),
        forall|j: int|
            0 <= j < final(v)@.len() ==> #[trigger] final(v)@[j] == r || old(v)@.contains(
                final(v)@[j],
            ),
{
    let key = r.cases.date.ordinal_number();
    let mut pos: usize = v.len();
    while pos > 0
        invariant
            pos <= v@.len(),
            v@ == old(v)@,
            date_ordered(v@),
            forall|j: int| pos <= j < v@.len() ==> report_slot(#[trigger] v@[j]) > key,
        ensures
            v@ == old(v)@,
            pos <= v@.len(),
            forall|j: int| pos <= j < v@.len() ==> report_slot(#[trigger] v@[j]) > key,
            pos > 0 ==> report_slot(v@[pos - 1]) <= key,
        decreases pos,
    {
        let prev = &v[pos - 1];
        if prev.cases.date.ordinal_number() <= key {
            proof {
                assert(report_slot(v@[pos - 1]) <= key);
            }
            break;
        }
        pos -= 1;
    }
    let ghost before = v@;
    proof {
        vstd::seq_lib::to_multiset_insert(before, pos as int, r);
        before.insert_ensures(pos as int, r);
        assert forall|i: int| 0 <= i < pos implies report_slot(#[trigger] before[i]) < key by {
            if i < pos - 1 {
                assert(report_slot(before[i]) < report_slot(before[pos - 1]));
            }
        }
    }
    v.insert(pos, r);
    proof {
        let nv = v@;
        assert(nv == before.insert(pos as int, r));
        assert forall|a: int, b: int| 0 <= a < b < nv.len() implies report_slot(#[trigger] nv[a])
            < report_slot(#[trigger] nv[b]) by {
            if b < pos {
            } else if a < pos && b == pos {
            } else if a < pos && b > pos {
                assert(nv[b] == before[b - 1]);
            } else if a == pos {
                assert(nv[b] == before[b - 1]);
            } else {
                assert(nv[a] == before[a - 1]);
                assert(nv[b] == before[b - 1]);
            }
        }
        assert forall|j: int| 0 <= j < nv.len() implies #[trigger] nv[j] == r || before.contains(
            nv[j],
        ) by {
            if j < pos {
                assert(nv[j] == before[j]);
            } else if j > pos {
                assert(nv[j] == before[j - 1]);
            }
        }
    }
}

} // verus!

verus! {

pub open spec fn waiting_wf(m: Map<i64, HospitalizationByVacStatus>) -> bool {
    forall|k: i64| #[trigger] m.contains_key(k) ==> m[k].wf()
}

proof fn lemma_hosp_by_date_wf(hosps: Seq<Result<HospitalizationByVacStatus, Fault>>)
    requires
        all_hosps_wf(hosps),
    ensures
        waiting_wf(hosp_by_date(hosps)),
    decreases hosps.len(),
{
    if hosps.len() > 0 {
        let p = hosps.drop_last();
        assert(all_hosps_wf(p)) by {
            assert forall|i: int| 0 <= i < p.len() implies (#[trigger] p[i] matches Ok(h) ==> h.wf()) by {
                assert(p[i] == hosps[i]);
            }
        }
        lemma_hosp_by_date_wf(p);
        assert(hosps.last() == hosps[hosps.len() - 1]);
    }
}

/// Joins the hospitalization rows and the cases rows by date into validated
/// day reports, sorted by date. Every row or report set aside is listed:
/// unreadable hospitalization rows first, then the cases rows' discards in order.
pub fn build_reports(
    hosps: &Vec<Result<HospitalizationByVacStatus, DataError>>,
    cases: &Vec<Result<CasesByVacStatus, DataError>>,
) -> (r: Batch)
    requires
        all_hosps_wf(hosps@),
        all_cases_wf(cases@),
    ensures
        ({
            let j = join_all(hosp_by_date(outcome_views(hosps@)), outcome_views(cases@));
            &&& date_ordered(r.reports@)
            &&& forall|i: int| 0 <= i < r.reports@.len() ==> (#[trigger] r.reports@[i]).wf()
            &&& r.reports@.to_multiset() == j.reports.to_multiset()
            &&& discard_views(r.discarded@) == hosp_discards(outcome_views(hosps@)) + j.discarded
            &&& r.orphaned == j.waiting.len()
        }),
{
    let mut waiting: HashMap<i64, HospitalizationByVacStatus> = HashMap::new();
    let mut discarded: Vec<Discard> = Vec::new();
    let mut i: usize = 0;
    while i < hosps.len()
        invariant
            i <= hosps@.len(),
            all_hosps_wf(hosps@),
            waiting@ == hosp_by_date(outcome_views(hosps@).take(i as int)),
            discard_views(discarded@) == hosp_discards(outcome_views(hosps@).take(i as int)),
        decreases hosps@.len() - i,
    {
        proof {
            let hv = outcome_views(hosps@);
            assert(hv.take(i + 1).drop_last() =~= hv.take(i as int));
            assert(hv.take(i + 1).last() == hv[i as int]);
        }
        match &hosps[i] {
            Ok(h) => {
                waiting.insert(h.date.ordinal_number(), *h);
            },
            Err(e) => {
                let ghost before = discarded@;
                discarded.push(discard_of(e));
                proof {
                    assert(discard_views(discarded@) =~= discard_views(before).push(
                        DiscardView::Unreadable(e@),
                    ));
                }
            },
        }
        i += 1;
    }
    proof {
        assert(outcome_views(hosps@).take(hosps@.len() as int) =~= outcome_views(hosps@));
        lemma_hosp_by_date_wf(outcome_views(hosps@));
    }
    let ghost start = waiting@;
    let ghost early = discard_views(discarded@);
    let mut reports: Vec<DayReport> = Vec::new();
    let mut k: usize = 0;
    while k < cases.len()
        invariant
            k <= cases@.len(),
            all_cases_wf(cases@),
            start == hosp_by_date(outcome_views(hosps@)),
            early == hosp_discards(outcome_views(hosps@)),
            waiting_wf(waiting@),
            waiting@ == join_all(start, outcome_views(cases@).take(k as int)).waiting,
            forall|j: int|
                0 <= j < reports@.len() ==> !waiting@.contains_key(
                    date_slot(#[trigger] reports@[j].cases.date),
                ),
            forall|j: int| 0 <= j < reports@.len() ==> (#[trigger] reports@[j]).wf(),
            date_ordered(reports@),
            reports@.to_multiset() == join_all(start, outcome_views(cases@).take(k as int)).reports.to_multiset(),
            discard_views(discarded@) == early + join_all(start, outcome_views(cases@).take(k as int)).discarded,
        decreases cases@.len() - k,
    {
        let ghost s = join_all(start, outcome_views(cases@).take(k as int));
        let ghost before = discarded@;
        proof {
            let cv = outcome_views(cases@);
            assert(cv.take(k + 1).drop_last() =~= cv.take(k as int));
            assert(cv.take(k + 1).last() == cv[k as int]);
            assert(join_all(start, cv.take(k + 1)) == join_step(s, cv[k as int]));
        }
        match &cases[k] {
            Err(e) => {
                discarded.push(discard_of(e));
                proof {
                    assert(discard_views(discarded@) =~= discard_views(before).push(
                        DiscardView::Unreadable(e@),
                    ));
                }
            },
            Ok(c) => {
                proof {
                    assert(c.wf());
                }
                match c.validate() {
                    Err(e) => {
                        discarded.push(Discard::InvalidCases(e));
                        proof {
                            assert(discard_views(discarded@) =~= discard_views(before).push(
                                DiscardView::InvalidCases(e@),
                            ));
                        }
                    },
                    Ok(()) => {
                        let slot = c.date.ordinal_number();
                        let ghost old_waiting = waiting@;
                        match waiting.remove(&slot) {
                            Some(h) => {
                                let report = DayReport::from(*c, h);
                                match report.validate() {
                                    Ok(()) => {
                                        let ghost prior = reports@;
                                        proof {
                                            assert forall|j: int| 0 <= j < prior.len() implies
                                                report_slot(#[trigger] prior[j]) != report_slot(
                                                report,
                                            ) by {
                                                assert(prior[j].wf());
                                                assert(!old_waiting.contains_key(
                                                    date_slot(prior[j].cases.date),
                                                ));
                                            }
                                        }
                                        insert_in_order(&mut reports, report);
                                        proof {
                                            assert forall|j: int| 0 <= j < reports@.len() implies
                                                !waiting@.contains_key(
                                                date_slot(#[trigger] reports@[j].cases.date),
                                            ) && reports@[j].wf() by {
                                                if reports@[j] != report {
                                                    assert(prior.contains(reports@[j]));
                                                    let t = choose|t: int|
                                                        0 <= t < prior.len() && prior[t]
                                                            == reports@[j];
                                                    assert(!old_waiting.contains_key(
                                                        date_slot(prior[t].cases.date),
                                                    ));
                                                }
                                            }
                                        }
                                        proof {
                                            let n = s.reports.len() as int;
                                            vstd::seq_lib::to_multiset_insert(s.reports, n, report);
                                            assert(s.reports.insert(n, report) =~= s.reports.push(
                                                report,
                                            ));
                                        }
                                    },
                                    Err(e) => {
                                        let key = report.key();
                                        discarded.push(Discard::InvalidReport(key, e));
                                        proof {
                                            assert(discard_views(discarded@) =~= discard_views(
                                                before,
                                            ).push(DiscardView::InvalidReport(c.date.key_text(), e@)));
                                        }
                                    },
                                }
                            },
                            None => {
                                discarded.push(Discard::Unmatched(c.date));
                                proof {
                                    assert(discard_views(discarded@) =~= discard_views(before).push(
                                        DiscardView::Unmatched(c.date),
                                    ));
                                }
                            },
                        }
                    },
                }
            },
        }
        k += 1;
    }
    proof {
        assert(outcome_views(cases@).take(cases@.len() as int) =~= outcome_views(cases@));
    }
    let orphaned = waiting.len();
    Batch { reports, discarded, orphaned }
}

} // verus!

verus! {

/// Reads every row of the cases dataset.
pub open spec fn cases_rows(root: CasesByVacStatusRoot) -> Seq<Result<CasesByVacStatus, Fault>> {
    Seq::new(root.records@.len(), |i: int| cases_of_row(root.records@[i]@))
}

/// Reads every row of the hospitalization dataset.
pub open spec fn hosp_rows(root: HospitalizationByVacStatusRoot) -> Seq<
    Result<HospitalizationByVacStatus, Fault>,
> {
    Seq::new(root.records@.len(), |i: int| hosp_of_row(root.records@[i]@))
}

fn read_cases_rows(root: &CasesByVacStatusRoot) -> (r: Vec<Result<CasesByVacStatus, DataError>>)
    ensures
        outcome_views(r@) == cases_rows(*root),
        all_cases_wf(r@),
{
    let mut v: Vec<Result<CasesByVacStatus, DataError>> = Vec::new();
    let mut i: usize = 0;
    while i < root.records.len()
        invariant
            i <= root.records@.len(),
            outcome_views(v@) == cases_rows(*root).take(i as int),
            all_cases_wf(v@),
        decreases root.records@.len() - i,
    {
        let rec = transform_record(root.records[i].as_slice());
        let ghost before = v@;
        v.push(rec);
        proof {
            assert(outcome_views(v@) =~= outcome_views(before).push(outcome_view(rec)));
            assert(cases_rows(*root).take(i + 1) =~= cases_rows(*root).take(i as int).push(
                cases_rows(*root)[i as int],
            ));
            assert forall|j: int| 0 <= j < v@.len() implies (#[trigger] v@[j] matches Ok(c)
                ==> c.wf()) by {
                if j < i {
                    assert(v@[j] == before[j]);
                }
            }
        }
        i += 1;
    }
    proof {
        assert(cases_rows(*root).take(i as int) =~= cases_rows(*root));
    }
    v
}

fn read_hosp_rows(root: &HospitalizationByVacStatusRoot) -> (r: Vec<
    Result<HospitalizationByVacStatus, DataError>,
>)
    ensures
        outcome_views(r@) == hosp_rows(*root),
        all_hosps_wf(r@),
{
    let mut v: Vec<Result<HospitalizationByVacStatus, DataError>> = Vec::new();
    let mut i: usize = 0;
    while i < root.records.len()
        invariant
            i <= root.records@.len(),
            outcome_views(v@) == hosp_rows(*root).take(i as int),
            all_hosps_wf(v@),
        decreases root.records@.len() - i,
    {
        let rec = transform_hosp_record(root.records[i].as_slice());
        let ghost before = v@;
        v.push(rec);
        proof {
            assert(outcome_views(v@) =~= outcome_views(before).push(outcome_view(rec)));
            assert(hosp_rows(*root).take(i + 1) =~= hosp_rows(*root).take(i as int).push(
                hosp_rows(*root)[i as int],
            ));
            assert forall|j: int| 0 <= j < v@.len() implies (#[trigger] v@[j] matches Ok(h)
                ==> h.wf()) by {
                if j < i {
                    assert(v@[j] == before[j]);
                }
            }
        }
        i += 1;
    }
    proof {
        assert(hosp_rows(*root).take(i as int) =~= hosp_rows(*root));
    }
    v
}

/// Runs the JSON layout end to end: both datasets' declared fields are checked
/// first (cases, then hospitalizations), and a mismatch refuses the run before
/// any row is read; then every row is read and the two are joined.
pub fn run_json(cases: &CasesByVacStatusRoot, hosps: &HospitalizationByVacStatusRoot) -> (r: Result<
    Batch,
    DataError,
>)
    ensures
        ({
            let cs = schema_check(field_views(cases.fields@), cases_schema());
            let hs = schema_check(field_views(hosps.fields@), hosp_schema());
            let j = join_all(hosp_by_date(hosp_rows(*hosps)), cases_rows(*cases));
            &&& cs is Err ==> (r matches Err(e) && cs == Err::<(), Fault>(e@))
            &&& cs is Ok && hs is Err ==> (r matches Err(e) && hs == Err::<(), Fault>(e@))
            &&& cs is Ok && hs is Ok ==> (r matches Ok(b) && {
                &&& date_ordered(b.reports@)
                &&& forall|i: int| 0 <= i < b.reports@.len() ==> (#[trigger] b.reports@[i]).wf()
                &&& b.reports@.to_multiset() == j.reports.to_multiset()
                &&& discard_views(b.discarded@) == hosp_discards(hosp_rows(*hosps)) + j.discarded
                &&& b.orphaned == j.waiting.len()
            })
        }),
{
    match cases.validate() {
        Err(e) => return Err(e),
        Ok(()) => {},
    }
    match hosps.validate() {
        Err(e) => return Err(e),
        Ok(()) => {},
    }
    let h = read_hosp_rows(hosps);
    let c = read_cases_rows(cases);
    Ok(build_reports(&h, &c))
}

/// Every chart value of a day: case rates as published, and admission rates
/// per 100,000, for the unvaccinated (dose 0) and fully vaccinated (dose 2)
/// cohorts, each rounded to two decimals.
#[derive(Clone, Debug)]
pub struct ChartPoint {
    /// The day, `YYYY-MM-DD`.
    pub label: String,
    pub cases_dose0: Option<Dec>,
    pub cases_dose2: Option<Dec>,
    pub nonicu_dose0: Option<Dec>,
    pub nonicu_dose2: Option<Dec>,
    pub icu_dose0: Option<Dec>,
    pub icu_dose2: Option<Dec>,
}

pub open spec fn round2(d: Option<Dec>) -> Option<Dec> {
    match d {
        Some(v) => Some(v.round_dp_spec(2)),
        None => None,
    }
}

fn round2_exec(d: Option<Dec>) -> (r: Option<Dec>)
    requires
        d matches Some(v) ==> v.wf(),
    ensures
        r == round2(d),
{
    match d {
        Some(v) => Some(round_dp(v, 2)),
        None => None,
    }
}

/// The chart values of a report.
pub fn chart_point(r: &DayReport) -> (p: ChartPoint)
    requires
        r.wf(),
    ensures
        p.label@ == r.cases.date.iso_text(),
        p.cases_dose0 == round2(r.cases.cases_unvac_rate_per100k),
        p.cases_dose2 == round2(r.cases.cases_full_vac_rate_per100k),
        p.nonicu_dose0 == round2(rate_of(r.hosps.hospitalnonicu_unvac, r.unvac_population())),
        p.nonicu_dose2 == round2(rate_of(r.hosps.hospitalnonicu_full_vac, r.full_vac_population())),
        p.icu_dose0 == round2(rate_of(r.hosps.icu_unvac, r.unvac_population())),
        p.icu_dose2 == round2(rate_of(r.hosps.icu_full_vac, r.full_vac_population())),
{
    ChartPoint {
        label: r.cases.date.iso(),
        cases_dose0: round2_exec(r.cases.cases_unvac_rate_per100k),
        cases_dose2: round2_exec(r.cases.cases_full_vac_rate_per100k),
        nonicu_dose0: round2_exec(r.nonicu_unvac_rate_per100k()),
        nonicu_dose2: round2_exec(r.nonicu_full_vac_rate_per100k()),
        icu_dose0: round2_exec(r.icu_unvac_rate_per100k()),
        icu_dose2: round2_exec(r.icu_full_vac_rate_per100k()),
    }
}

} // verus!

verus! {

/// The keys of reports, in order.
pub open spec fn report_keys(reports: Seq<DayReport>) -> Seq<Seq<char>> {
    Seq::new(reports.len(), |j: int| reports[j].cases.date.key_text())
}

/// The index of the reports' keys, stamped with the current time.
pub fn report_index(reports: &Vec<DayReport>) -> (r: Index)
    requires
        forall|j: int| 0 <= j < reports@.len() ==> (#[trigger] reports@[j]).wf(),
    ensures
        r.wf(),
        forall|x: Seq<char>| #[trigger] r.view().contains(x) <==> report_keys(reports@).contains(x),
{
    let mut keys: Vec<String> = Vec::new();
    let mut i: usize = 0;
    while i < reports.len()
        invariant
            i <= reports@.len(),
            forall|j: int| 0 <= j < reports@.len() ==> (#[trigger] reports@[j]).wf(),
            keys@.len() == i,
            forall|j: int| 0 <= j < i ==> (#[trigger] keys@[j])@ == report_keys(reports@)[j],
        decreases reports@.len() - i,
    {
        keys.push(reports[i].key());
        i += 1;
    }
    let mut refs: Vec<&str> = Vec::new();
    let mut i: usize = 0;
    while i < keys.len()
        invariant
            i <= keys@.len(),
            refs@.len() == i,
            forall|j: int| 0 <= j < i ==> (#[trigger] refs@[j])@ == keys@[j]@,
        decreases keys@.len() - i,
    {
        refs.push(keys[i].as_str());
        i += 1;
    }
    proof {
        assert(str_views(refs@) =~= report_keys(reports@));
    }
    Index::from(refs.as_slice())
}

} // verus!
