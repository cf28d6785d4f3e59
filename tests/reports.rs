use ontariopublic::cases::{compute_total_population_from_cases_and_rate, CasesByVacStatus};
use ontariopublic::date::Date;
use ontariopublic::decimal::Dec;
use ontariopublic::error::DataError;
use ontariopublic::hosp::HospitalizationByVacStatus;
use ontariopublic::pipeline::chart_point;
use ontariopublic::report::DayReport;

fn dec(s: &str) -> Dec {
    Dec::parse(s).unwrap()
}

fn cases(date: Date) -> CasesByVacStatus {
    let mut c = CasesByVacStatus::default();
    c.id = 1;
    c.date = date;
    c.covid19_cases_unvac = Some(1234);
    c.covid19_cases_partial_vac = Some(30);
    c.covid19_cases_full_vac = 500;
    c.cases_unvac_rate_per100k = Some(dec("56.78"));
    c.cases_partial_vac_rate_per100k = Some(dec("20"));
    c.cases_full_vac_rate_per100k = Some(dec("4.5"));
    c
}

fn hosps(date: Date) -> HospitalizationByVacStatus {
    let mut h = HospitalizationByVacStatus::default();
    h.id = 1;
    h.date = date;
    h.icu_unvac = 50;
    h.icu_partial_vac = 3;
    h.icu_full_vac = 20;
    h.hospitalnonicu_unvac = 200;
    h.hospitalnonicu_partial_vac = 6;
    h.hospitalnonicu_full_vac = 100;
    h
}

const DAY: Date = Date { year: 2022, month: 1, day: 2 };

#[test]
fn population_round_trips_through_the_rate() {
    for (c, r) in [(1234i64, "56.78"), (7, "3.5"), (1, "0.01"), (999_999, "77.7777"), (500, "4.5")] {
        let rate = dec(r);
        let p = compute_total_population_from_cases_and_rate(c, rate).unwrap();
        let q = rate.checked_div(Dec::from_int(100000)).unwrap();
        let back = p.checked_mul(q).unwrap().round_dp(0);
        assert!(back.same_value_as(&Dec::from_int(c)), "{} {}", c, r);
    }
}

#[test]
fn population_of_exact_values() {
    let p = compute_total_population_from_cases_and_rate(5, dec("2.5")).unwrap();
    assert!(p.same_value_as(&Dec::from_int(200000)));
    let p = compute_total_population_from_cases_and_rate(123, dec("0")).unwrap();
    assert_eq!(p, Dec::zero());
    let p = compute_total_population_from_cases_and_rate(i64::MAX, dec("0.0000000000000000000000000001"));
    assert_eq!(p, None);
}

#[test]
fn consistent_report_validates() {
    let r = DayReport::from(cases(DAY), hosps(DAY));
    assert!(r.validate().is_ok());
    assert_eq!(r.key(), "20220102");
}

#[test]
fn date_mismatch_fails_construction() {
    let r = DayReport::from(cases(DAY), hosps(Date { year: 2022, month: 1, day: 3 }));
    match r.validate() {
        Err(DataError::Invalid(s)) => assert_eq!(s, "cases and hospitalization dates do not match"),
        other => panic!("unexpected {:?}", other),
    }
}

#[test]
fn inconsistent_counts_fail_cross_validation() {
    let mut bad = cases(DAY);
    bad.cases_unvac_rate_per100k = Some(dec("0"));
    match DayReport::from(bad, hosps(DAY)).validate() {
        Err(DataError::Problem(m)) => assert_eq!(
            m,
            "The unvac cases for 20220102 did not match calculated: 0 expected: 1234"
        ),
        other => panic!("unexpected {:?}", other),
    }
    let mut bad = cases(DAY);
    bad.cases_full_vac_rate_per100k = Some(dec("0"));
    match DayReport::from(bad, hosps(DAY)).validate() {
        Err(DataError::Problem(m)) => {
            assert_eq!(m, "The full vac cases did not match calculated: 0 expected: 500")
        }
        other => panic!("unexpected {:?}", other),
    }
}

#[test]
fn per_capita_rates() {
    let mut c = cases(DAY);
    c.covid19_cases_full_vac = 5;
    c.cases_full_vac_rate_per100k = Some(dec("2.5"));
    c.covid19_cases_unvac = None;
    let r = DayReport::from(c, hosps(DAY));
    // fully vaccinated population is 200000
    let icu = r.icu_full_vac_rate_per100k().unwrap();
    assert!(icu.same_value_as(&Dec::from_int(10)));
    let nonicu = r.nonicu_full_vac_rate_per100k().unwrap();
    assert!(nonicu.same_value_as(&Dec::from_int(50)));
    assert_eq!(r.icu_unvac_rate_per100k(), None);
    assert_eq!(r.nonicu_unvac_rate_per100k(), None);
    // partially vaccinated population is 30 * 100000 / 20 = 150000
    let p = r.icu_partial_vac_rate_per100k().unwrap();
    assert!(p.same_value_as(&Dec::from_int(2)));
    let p = r.nonicu_partial_vac_rate_per100k().unwrap();
    assert!(p.same_value_as(&Dec::from_int(4)));
}

#[test]
fn zero_population_gives_zero_rate() {
    let mut c = cases(DAY);
    c.cases_full_vac_rate_per100k = Some(dec("0"));
    let r = DayReport::from(c, hosps(DAY));
    assert_eq!(r.icu_full_vac_rate_per100k(), Some(Dec::zero()));
}

#[test]
fn chart_values_are_rounded_to_two_places() {
    let mut c = cases(DAY);
    c.cases_unvac_rate_per100k = Some(dec("56.785"));
    c.covid19_cases_full_vac = 3;
    c.cases_full_vac_rate_per100k = Some(dec("1"));
    let r = DayReport::from(c, hosps(DAY));
    let p = chart_point(&r);
    assert_eq!(p.label, "2022-01-02");
    assert_eq!(p.cases_dose0, Some(Dec { mantissa: 5679, scale: 2 }));
    assert_eq!(p.cases_dose2, Some(Dec { mantissa: 1, scale: 0 }));
    // 20 ICU admissions over a population of 300000: 6.666.. per 100,000
    assert_eq!(p.icu_dose2.unwrap().to_text(), "6.67");
    assert_eq!(dec("-2.5").round_dp(0).to_text(), "-3");
}

#[test]
fn decimal_texts() {
    assert_eq!(Dec { mantissa: -5, scale: 0 }.to_text(), "-5");
    assert_eq!(Dec { mantissa: 5, scale: 2 }.to_text(), "0.05");
    assert_eq!(Dec { mantissa: 0, scale: 2 }.to_text(), "0.00");
    assert_eq!(Dec { mantissa: -123456, scale: 3 }.to_text(), "-123.456");
}
