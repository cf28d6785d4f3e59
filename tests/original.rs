use ontariopublic::decimal::Dec;
use ontariopublic::cases::compute_total_population_from_cases_and_rate;
use ontariopublic::index::Index;

fn dec(s: &str) -> Dec {
    Dec::parse(s).unwrap()
}

#[test]
fn decimal_scale() {
    let d = dec("0.05");
    assert_eq!(d.scale, 2);
    let divi = dec("1000");
    let r = d.checked_div(divi).unwrap();
    assert_eq!(r.scale, 5);
    assert_eq!(r.to_text(), "0.00005");
    let d = dec("5");
    assert_eq!(d.scale, 0);
    let divi = dec("100000");
    let r = d.checked_div(divi).unwrap();
    assert_eq!(r.scale, 5);
    assert_eq!(r.to_text(), "0.00005");
}

#[test]
fn population_calc() {
    let cases: i64 = 1;
    let rate = dec("1.0");
    assert!(compute_total_population_from_cases_and_rate(cases, rate)
        .unwrap()
        .same_value_as(&Dec::from_int(100000)));
    let cases: i64 = 2;
    let rate = dec("1.0");
    assert!(compute_total_population_from_cases_and_rate(cases, rate)
        .unwrap()
        .same_value_as(&Dec::from_int(200000)));
    let cases: i64 = 0;
    let rate = dec("1.0");
    assert!(compute_total_population_from_cases_and_rate(cases, rate)
        .unwrap()
        .same_value_as(&Dec::from_int(0)));
    let cases: i64 = 1;
    let rate = dec("0.0");
    assert!(compute_total_population_from_cases_and_rate(cases, rate)
        .unwrap()
        .same_value_as(&Dec::from_int(0)));
}

#[test]
fn index_use() {
    let i = Index::from(&["20211201", "20211215"]);
    let mr = i.most_recent();
    assert_eq!("20211215", mr);
    let i = Index::from(&["20211201", "20211215", "20211130"]);
    let mr = i.most_recent();
    assert_eq!("20211215", mr);
}

#[test]
fn index_next_prev() {
    let i = Index::from(&["20211201", "20211215", "20211130"]);
    let next = i.next("20211201".to_string());
    let prev = i.prev("20211201".to_string());
    assert_eq!(Some("20211215".to_string()), next);
    assert_eq!(Some("20211130".to_string()), prev);
    let next = i.next("20211130".to_string());
    let prev = i.prev("20211130".to_string());
    assert_eq!(Some("20211201".to_string()), next);
    assert_eq!(None, prev);
    let next = i.next("20211215".to_string());
    let prev = i.prev("20211215".to_string());
    assert_eq!(None, next);
    assert_eq!(Some("20211201".to_string()), prev);
}
