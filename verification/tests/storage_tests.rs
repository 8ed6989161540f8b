use protin::storage::{
    bucket_is_listed, build_failures_message, delete_failures_message, deleted_keys, DeleteFailure,
};

fn s(x: &str) -> String {
    x.to_string()
}

#[test]
fn bucket_listed_by_name() {
    let names = vec![Some(s("other")), None, Some(s("protin-files"))];
    assert!(bucket_is_listed(&names, &s("protin-files")));
    assert!(!bucket_is_listed(&names, &s("protin")));
    assert!(!bucket_is_listed(&vec![], &s("protin-files")));
}

#[test]
fn nameless_bucket_matches_empty_name() {
    assert!(bucket_is_listed(&vec![None], &s("")));
    assert!(!bucket_is_listed(&vec![Some(s("a"))], &s("")));
}

#[test]
fn deleted_keys_skip_entries_without_key() {
    let got = deleted_keys(&vec![Some(s("a")), None, Some(s("c"))]);
    assert_eq!(got, vec![s("a"), s("c")]);
    assert!(deleted_keys(&vec![None, None]).is_empty());
}

#[test]
fn delete_failures_are_joined_by_lines() {
    let failures = vec![
        DeleteFailure { key: Some(s("k1")), message: Some(s("denied")), code: Some(s("AccessDenied")) },
        DeleteFailure { key: None, message: None, code: Some(s("X")) },
    ];
    let got = delete_failures_message(&Some(failures)).unwrap();
    assert_eq!(got, "Error while deleting file k1: denied(AccessDenied)\nError while deleting file : (X)");
}

#[test]
fn absent_failure_list_is_no_error_and_empty_list_is_empty_error() {
    assert_eq!(delete_failures_message(&None), None);
    assert_eq!(delete_failures_message(&Some(vec![])), Some(String::new()));
}

#[test]
fn build_failures_list_failed_keys_only() {
    let keys = vec![s("a"), s("b"), s("c")];
    assert_eq!(build_failures_message(&keys, &vec![None, None, None]), None);
    let got = build_failures_message(&keys, &vec![Some(s("e1")), None, Some(s("e3"))]).unwrap();
    assert_eq!(
        got,
        "Error while building delete request for file a: e1\nError while building delete request for file c: e3"
    );
}
