use ontariopublic::index::{compare_text, Index};

#[test]
fn most_recent_of_built_index() {
    let i = Index::from(&["20211201", "20211215", "20211130"]);
    assert_eq!(i.most_recent(), "20211215");
}

#[test]
fn next_and_previous_at_the_edges() {
    let i = Index::from(&["20211201", "20211215", "20211130"]);
    assert_eq!(i.next("20211201".to_string()), Some("20211215".to_string()));
    assert_eq!(i.prev("20211201".to_string()), Some("20211130".to_string()));
    assert_eq!(i.prev("20211130".to_string()), None);
    assert_eq!(i.next("20211215".to_string()), None);
    assert_eq!(i.next("20211202".to_string()), None);
    assert_eq!(i.prev("20211202".to_string()), None);
}

#[test]
fn keys_are_sorted_and_unique() {
    let i = Index::build_at(&["20211201", "20211130", "20211201", "20211215", "20211130"], 99);
    assert_eq!(i.keys, vec!["20211130", "20211201", "20211215"]);
    assert_eq!(i.updated, 99);
    assert_eq!(i.max_idx(), 2);
    assert_eq!(i.get(1), Some("20211201".to_string()));
    assert_eq!(i.get(3), None);
    assert_eq!(i.idx("20211215".to_string()), Some(2));
    assert_eq!(i.idx("20211216".to_string()), None);
}

#[test]
fn empty_index() {
    let empty: [&str; 0] = [];
    let i = Index::from(&empty);
    assert_eq!(i.most_recent(), "error empty index");
    assert_eq!(i.get(0), None);
    assert_eq!(i.next("20211201".to_string()), None);
}

#[test]
fn text_order() {
    assert!(compare_text("2021", "2022") < 0);
    assert!(compare_text("abc", "ab") > 0);
    assert_eq!(compare_text("x", "x"), 0);
    assert!(compare_text("", "a") < 0);
}
