use ontariopublic::cases::CasesByVacStatus;
use ontariopublic::dataset::{
    CasesByVacStatusRoot, HeaderField, HeaderFieldInfo, HospitalizationByVacStatusRoot,
};
use ontariopublic::date::Date;
use ontariopublic::decimal::Dec;
use ontariopublic::error::DataError;
use ontariopublic::hosp::HospitalizationByVacStatus;
use ontariopublic::pipeline::{build_reports, run_json, Discard};
use ontariopublic::row::RawValue;

fn dec(s: &str) -> Dec {
    Dec::parse(s).unwrap()
}

fn day(d: u32) -> Date {
    Date { year: 2022, month: 1, day: d }
}

fn cases(d: u32) -> CasesByVacStatus {
    let mut c = CasesByVacStatus::default();
    c.id = d as i64;
    c.date = day(d);
    c.covid19_cases_unvac = Some(10);
    c.covid19_cases_full_vac = 5;
    c.cases_unvac_rate_per100k = Some(dec("10"));
    c.cases_full_vac_rate_per100k = Some(dec("5"));
    c
}

fn hosps(d: u32) -> HospitalizationByVacStatus {
    let mut h = HospitalizationByVacStatus::default();
    h.id = d as i64;
    h.date = day(d);
    h.icu_unvac = 1;
    h
}

fn field(id: &str, t: &str, over: &str) -> HeaderField {
    HeaderField::new(id, t, HeaderFieldInfo::new("", over, ""))
}

fn cases_fields() -> Vec<HeaderField> {
    let mut v = vec![field("_id", "int", ""), field("Date", "timestamp", "timestamp")];
    for n in [
        "covid19_cases_unvac",
        "covid19_cases_partial_vac",
        "covid19_cases_full_vac",
        "covid19_cases_vac_unknown",
        "cases_unvac_rate_per100K",
        "cases_partial_vac_rate_per100K",
        "cases_full_vac_rate_per100K",
        "cases_unvac_rate_7ma",
        "cases_partial_vac_rate_7ma",
        "cases_full_vac_rate_7ma",
    ] {
        v.push(field(n, "text", ""));
    }
    v
}

fn hosp_fields() -> Vec<HeaderField> {
    let mut v = vec![field("_id", "int", ""), field("date", "timestamp", "timestamp")];
    for n in [
        "icu_unvac",
        "icu_partial_vac",
        "icu_full_vac",
        "hospitalnonicu_unvac",
        "hospitalnonicu_partial_vac",
        "hospitalnonicu_full_vac",
    ] {
        v.push(field(n, "numeric", "numeric"));
    }
    v
}

fn text(s: &str) -> RawValue {
    RawValue::Text(s.to_string())
}

#[test]
fn reports_are_joined_sorted_and_discards_listed() {
    let hs = vec![
        Ok(hosps(3)),
        Ok(hosps(1)),
        Err(DataError::Int("x".to_string())),
        Ok(hosps(2)),
        Ok(hosps(9)),
    ];
    let mut mismatched = cases(2);
    mismatched.cases_full_vac_rate_per100k = Some(dec("0"));
    let cs = vec![
        Ok(cases(3)),
        Ok(cases(1)),
        Ok(cases(4)),
        Err(DataError::Decimal("y".to_string())),
        Ok(cases(1)),
        Ok(mismatched),
    ];
    let b = build_reports(&hs, &cs);
    let keys: Vec<String> = b.reports.iter().map(|r| r.key()).collect();
    assert_eq!(keys, vec!["20220101", "20220103"]);
    assert_eq!(b.orphaned, 1);
    assert_eq!(b.discarded.len(), 5);
    assert!(matches!(&b.discarded[0], Discard::Unreadable(DataError::Int(s)) if s == "x"));
    assert!(matches!(&b.discarded[1], Discard::Unmatched(d) if *d == day(4)));
    assert!(matches!(&b.discarded[2], Discard::Unreadable(DataError::Decimal(s)) if s == "y"));
    assert!(matches!(&b.discarded[3], Discard::Unmatched(d) if *d == day(1)));
    assert!(matches!(&b.discarded[4], Discard::InvalidReport(k, DataError::Problem(_)) if k == "20220102"));
}

#[test]
fn invalid_cases_record_is_set_aside() {
    let mut c = cases(5);
    c.covid19_cases_vac_unknown = Some(-3);
    let b = build_reports(&vec![Ok(hosps(5))], &vec![Ok(c)]);
    assert!(b.reports.is_empty());
    assert_eq!(b.orphaned, 1);
    assert!(matches!(&b.discarded[0], Discard::InvalidCases(DataError::Invalid(s)) if s == "-3"));
}

#[test]
fn field_count_mismatch_rejects_dataset() {
    let mut fields = cases_fields();
    fields.pop();
    let root = CasesByVacStatusRoot { fields, records: vec![vec![RawValue::Other]] };
    match root.validate() {
        Err(DataError::Problem(m)) => assert_eq!(
            m,
            "the expected headers and received headers have different length expected: 12 actual: 11"
        ),
        other => panic!("unexpected {:?}", other),
    }
    let hroot = HospitalizationByVacStatusRoot { fields: hosp_fields(), records: vec![] };
    assert!(hroot.validate().is_ok());
    assert!(matches!(run_json(&root, &hroot), Err(DataError::Problem(_))));
}

#[test]
fn differing_field_is_named() {
    let mut fields = hosp_fields();
    fields[4] = field("icu_full", "numeric", "numeric");
    let root = HospitalizationByVacStatusRoot { fields, records: vec![] };
    match root.validate() {
        Err(DataError::Problem(m)) => {
            assert_eq!(m, "The two header fields do not match left: icu_full right: icu_full_vac")
        }
        other => panic!("unexpected {:?}", other),
    }
}

#[test]
fn json_datasets_run_end_to_end() {
    let croot = CasesByVacStatusRoot {
        fields: cases_fields(),
        records: vec![
            vec![
                RawValue::Int(1),
                text("2022-01-02T00:00:00"),
                text("10"),
                text("0"),
                text("5"),
                text("0"),
                text("10"),
                text("0"),
                text("5"),
                text("10"),
                text("0"),
                text("5"),
            ],
            vec![RawValue::Int(2), text("bad")],
        ],
    };
    let hroot = HospitalizationByVacStatusRoot {
        fields: hosp_fields(),
        records: vec![vec![
            RawValue::Int(1),
            text("2022-01-02T00:00:00"),
            RawValue::Int(1),
            RawValue::Int(0),
            RawValue::Int(0),
            RawValue::Int(2),
            RawValue::Int(0),
            RawValue::Int(0),
        ]],
    };
    let b = run_json(&croot, &hroot).unwrap();
    assert_eq!(b.reports.len(), 1);
    assert_eq!(b.reports[0].key(), "20220102");
    assert_eq!(b.discarded.len(), 1);
    assert!(matches!(&b.discarded[0], Discard::Unreadable(DataError::Date(s)) if s == "bad"));
}

#[test]
fn rows_are_read_in_order() {
    let croot = CasesByVacStatusRoot { fields: cases_fields(), records: vec![vec![RawValue::Other]] };
    let mut it = croot.into_iter();
    assert!(matches!(it.next(), Some(Err(DataError::Int(s))) if s.is_empty()));
    assert!(it.next().is_none());
    let hroot = HospitalizationByVacStatusRoot { fields: hosp_fields(), records: vec![] };
    let mut it = hroot.into_iter();
    assert!(it.next().is_none());
}
