use ontariopublic::cases::{transform_csv_record, transform_record, CasesByVacStatus, CsvCase};
use ontariopublic::date::Date;
use ontariopublic::decimal::Dec;
use ontariopublic::error::DataError;
use ontariopublic::hosp::{transform_hosp_record, HospitalizationByVacStatus};
use ontariopublic::row::RawValue;

fn dec(s: &str) -> Dec {
    Dec::parse(s).unwrap()
}

fn text(s: &str) -> RawValue {
    RawValue::Text(s.to_string())
}

fn cases_row() -> Vec<RawValue> {
    vec![
        RawValue::Int(7),
        text("2021-12-01T00:00:00"),
        text("100"),
        text("20"),
        text("50"),
        text("3"),
        text("40.5"),
        text("12.25"),
        text("2.5"),
        text("38.1"),
        text("11.0"),
        text("2.4"),
    ]
}

fn valid_cases() -> CasesByVacStatus {
    let mut c = CasesByVacStatus::default();
    c.id = 1;
    c.date = Date { year: 2022, month: 1, day: 2 };
    c.covid19_cases_unvac = Some(10);
    c.covid19_cases_partial_vac = Some(1);
    c.covid19_cases_full_vac = 5;
    c.cases_unvac_rate_per100k = Some(dec("10"));
    c.cases_partial_vac_rate_per100k = Some(dec("1"));
    c.cases_full_vac_rate_per100k = Some(dec("5"));
    c
}

#[test]
fn json_cases_row_is_read() {
    let c = transform_record(&cases_row()).unwrap();
    assert_eq!(c.id, 7);
    assert_eq!(c.date, Date { year: 2021, month: 12, day: 1 });
    assert_eq!(c.covid19_cases_unvac, Some(100));
    assert_eq!(c.covid19_cases_partial_vac, Some(20));
    assert_eq!(c.covid19_cases_full_vac, 50);
    assert_eq!(c.covid19_cases_vac_unknown, Some(3));
    assert_eq!(c.cases_unvac_rate_per100k, Some(Dec { mantissa: 405, scale: 1 }));
    assert_eq!(c.cases_partial_vac_rate_7ma, Some(Dec { mantissa: 110, scale: 1 }));
    assert_eq!(c.covid19_cases_boost_vac, None);
}

#[test]
fn unreadable_unvac_count_is_unknown() {
    let mut row = cases_row();
    row[2] = text("n/a");
    let c = transform_record(&row).unwrap();
    assert_eq!(c.covid19_cases_unvac, None);
}

#[test]
fn unreadable_count_fails_the_row() {
    let mut row = cases_row();
    row[4] = text("5x");
    match transform_record(&row) {
        Err(DataError::Int(s)) => assert_eq!(s, "5x"),
        other => panic!("unexpected {:?}", other),
    }
}

#[test]
fn unreadable_rate_fails_the_row() {
    let mut row = cases_row();
    row[8] = text("abc");
    match transform_record(&row) {
        Err(DataError::Decimal(s)) => assert_eq!(s, "abc"),
        other => panic!("unexpected {:?}", other),
    }
}

#[test]
fn unreadable_date_fails_the_row() {
    let mut row = cases_row();
    row[1] = text("2021-12-01");
    match transform_record(&row) {
        Err(DataError::Date(s)) => assert_eq!(s, "2021-12-01"),
        other => panic!("unexpected {:?}", other),
    }
}

#[test]
fn missing_required_cells_fail_the_row() {
    let row = vec![RawValue::Int(1)];
    match transform_record(&row) {
        Err(DataError::Date(s)) => assert_eq!(s, ""),
        other => panic!("unexpected {:?}", other),
    }
    let row = vec![RawValue::Int(1), text("2021-12-01T00:00:00")];
    match transform_record(&row) {
        Err(DataError::Int(s)) => assert_eq!(s, ""),
        other => panic!("unexpected {:?}", other),
    }
    match transform_hosp_record(&row) {
        Err(DataError::Int(s)) => assert_eq!(s, ""),
        other => panic!("unexpected {:?}", other),
    }
    let mut row = cases_row();
    row[0] = text("7");
    match transform_record(&row) {
        Err(DataError::Int(s)) => assert_eq!(s, "7"),
        other => panic!("unexpected {:?}", other),
    }
    let mut row = cases_row();
    row[4] = RawValue::Int(50);
    match transform_record(&row) {
        Err(DataError::Int(s)) => assert_eq!(s, ""),
        other => panic!("unexpected {:?}", other),
    }
    let mut row = cases_row();
    row[1] = RawValue::Other;
    assert!(matches!(transform_record(&row), Err(DataError::Date(s)) if s.is_empty()));
}

#[test]
fn missing_rate_cells_are_absent() {
    let mut row = cases_row();
    row.truncate(8);
    row[6] = RawValue::Other;
    let c = transform_record(&row).unwrap();
    assert_eq!(c.cases_unvac_rate_per100k, None);
    assert_eq!(c.cases_partial_vac_rate_per100k, Some(Dec { mantissa: 1225, scale: 2 }));
    assert_eq!(c.cases_full_vac_rate_per100k, None);
    assert_eq!(c.cases_full_vac_rate_7ma, None);
}

#[test]
fn negative_full_vac_count_is_invalid() {
    let mut row = cases_row();
    row[4] = text("-1");
    match transform_record(&row) {
        Err(DataError::Invalid(s)) => assert_eq!(s, "-1"),
        other => panic!("unexpected {:?}", other),
    }
    let mut c = valid_cases();
    c.covid19_cases_full_vac = -1;
    match c.validate() {
        Err(DataError::Invalid(s)) => assert_eq!(s, "-1"),
        other => panic!("unexpected {:?}", other),
    }
}

#[test]
fn rate_out_of_range_is_invalid() {
    let mut c = valid_cases();
    c.cases_full_vac_rate_7ma = Some(dec("100000.5"));
    match c.validate() {
        Err(DataError::Invalid(s)) => assert_eq!(s, "100000.5"),
        other => panic!("unexpected {:?}", other),
    }
    let mut c = valid_cases();
    c.cases_unvac_rate_per100k = Some(dec("-0.25"));
    match c.validate() {
        Err(DataError::Invalid(s)) => assert_eq!(s, "-0.25"),
        other => panic!("unexpected {:?}", other),
    }
    let mut c = valid_cases();
    c.cases_unvac_rate_per100k = Some(dec("100000"));
    assert!(c.validate().is_ok());
}

#[test]
fn date_before_first_record_is_invalid() {
    let mut c = valid_cases();
    c.date = Date { year: 2020, month: 6, day: 30 };
    match c.validate() {
        Err(DataError::Invalid(s)) => assert_eq!(s, "2020-06-30"),
        other => panic!("unexpected {:?}", other),
    }
    c.date = Date { year: 2020, month: 7, day: 1 };
    assert!(c.validate().is_ok());
}

#[test]
fn hosp_row_is_read() {
    let row = vec![
        RawValue::Int(3),
        text("2021-12-01T00:00:00"),
        RawValue::Int(10),
        RawValue::Int(2),
        RawValue::Int(4),
        RawValue::Int(30),
        RawValue::Int(5),
        RawValue::Int(20),
    ];
    let h = transform_hosp_record(&row).unwrap();
    assert_eq!(h.id, 3);
    assert_eq!(h.icu_unvac, 10);
    assert_eq!(h.hospitalnonicu_full_vac, 20);
    let mut bad = row.clone();
    bad[0] = RawValue::Int(0);
    match transform_hosp_record(&bad) {
        Err(DataError::Invalid(s)) => assert_eq!(s, "0"),
        other => panic!("unexpected {:?}", other),
    }
    let mut bad = row.clone();
    bad[3] = text("2");
    match transform_hosp_record(&bad) {
        Err(DataError::Int(s)) => assert_eq!(s, "2"),
        other => panic!("unexpected {:?}", other),
    }
    let mut bad = row.clone();
    bad[6] = RawValue::Int(-4);
    match transform_hosp_record(&bad) {
        Err(DataError::Invalid(s)) => assert_eq!(s, "-4"),
        other => panic!("unexpected {:?}", other),
    }
}

#[test]
fn hosp_default_is_refused() {
    let h = HospitalizationByVacStatus::default();
    assert_eq!(h.date, Date { year: 2019, month: 12, day: 8 });
    assert!(h.validate().is_err());
}

fn csv_row() -> CsvCase {
    CsvCase {
        date: "2022-01-15".to_string(),
        covid19_cases_unvac: Some(100),
        covid19_cases_partial_vac: None,
        covid19_cases_notfull_vac: Some(120),
        covid19_cases_full_vac: 500,
        covid19_cases_boost_vac: Some(40),
        covid19_cases_vac_unknown: None,
        cases_unvac_rate_per100k: Some(dec("40.5")),
        cases_partial_vac_rate_per100k: None,
        cases_notfull_vac_rate_per100k: Some(dec("30")),
        cases_full_vac_rate_per100k: Some(dec("5.5")),
        cases_boost_vac_rate_per100k: Some(dec("1.5")),
        cases_unvac_rate_7ma: None,
        cases_partial_vac_rate_7ma: None,
        cases_notfull_vac_rate_7ma: None,
        cases_full_vac_rate_7ma: None,
        cases_boost_vac_rate_7ma: None,
    }
}

#[test]
fn csv_row_is_read() {
    let c = transform_csv_record(&csv_row()).unwrap();
    assert_eq!(c.id, 0);
    assert_eq!(c.date, Date { year: 2022, month: 1, day: 15 });
    assert_eq!(c.covid19_cases_partial_vac, None);
    assert_eq!(c.covid19_cases_vac_unknown, None);
    assert_eq!(c.covid19_cases_boost_vac, Some(40));
    assert_eq!(c.cases_partial_vac_rate_per100k, None);
    assert_eq!(c.cases_full_vac_rate_7ma, None);
    assert_eq!(c.cases_notfull_vac_rate_per100k, Some(Dec { mantissa: 30, scale: 0 }));
}

#[test]
fn csv_row_with_bad_date_or_count_fails() {
    let mut r = csv_row();
    r.date = "15/01/2022".to_string();
    match transform_csv_record(&r) {
        Err(DataError::Date(s)) => assert_eq!(s, "15/01/2022"),
        other => panic!("unexpected {:?}", other),
    }
    let mut r = csv_row();
    r.covid19_cases_boost_vac = Some(-2);
    match transform_csv_record(&r) {
        Err(DataError::Invalid(s)) => assert_eq!(s, "-2"),
        other => panic!("unexpected {:?}", other),
    }
}

#[test]
fn count_texts_follow_integer_syntax() {
    let mut row = cases_row();
    row[3] = text("+42");
    row[5] = text("-9223372036854775808");
    match transform_record(&row) {
        Err(DataError::Invalid(s)) => assert_eq!(s, "-9223372036854775808"),
        other => panic!("unexpected {:?}", other),
    }
    let mut row = cases_row();
    row[3] = text("+42");
    assert_eq!(transform_record(&row).unwrap().covid19_cases_partial_vac, Some(42));
    for bad in ["9223372036854775808", "", " 1", "+", "-"] {
        let mut row = cases_row();
        row[3] = text(bad);
        assert!(matches!(transform_record(&row), Err(DataError::Int(s)) if s == bad));
    }
}

#[test]
fn date_texts() {
    let d = Date { year: 2021, month: 3, day: 9 };
    assert_eq!(d.key(), "20210309");
    assert_eq!(d.iso(), "2021-03-09");
    let d = Date { year: 987, month: 11, day: 30 };
    assert_eq!(d.key(), "09871130");
    let d = Date { year: 12345, month: 1, day: 1 };
    assert_eq!(d.key(), "+123450101");
}
