use protin::paste::{cleanup_outcome, generate_key, latest_paste, CleanupError, Paste, KEY_LENGTH, KEY_SPACE};

fn paste(id: &str, expires_at: i128) -> Paste {
    Paste { id: id.to_string(), created_at: 0, expires_at, deleted: false }
}

#[test]
fn latest_paste_of_none_is_none() {
    assert_eq!(latest_paste(vec![]), None);
}

#[test]
fn latest_paste_picks_latest_expiry() {
    let got = latest_paste(vec![paste("a", 5), paste("b", 9), paste("c", 7)]);
    assert_eq!(got, Some(paste("b", 9)));
}

#[test]
fn latest_paste_keeps_first_of_equal_expiries() {
    let got = latest_paste(vec![paste("a", -3), paste("b", 8), paste("c", 8), paste("d", 1)]);
    assert_eq!(got.unwrap().id, "b");
}

#[test]
fn latest_paste_agrees_with_stable_sort() {
    let list = vec![paste("a", 2), paste("b", 2), paste("c", -1), paste("d", 2), paste("e", 0)];
    let mut sorted = list.clone();
    sorted.sort_by_key(|p| std::cmp::Reverse(p.expires_at));
    assert_eq!(latest_paste(list), sorted.first().cloned());
}

#[test]
fn generated_keys_have_the_length_and_alphabet() {
    for len in [0u32, 1, 5, KEY_LENGTH] {
        let key = generate_key(len);
        assert_eq!(key.chars().count(), len as usize);
        assert!(key.chars().all(|c| KEY_SPACE.contains(c)));
    }
    assert_eq!(KEY_LENGTH, 20);
    assert_eq!(KEY_SPACE.len(), 63);
}

#[test]
fn generated_keys_vary() {
    let keys: Vec<String> = (0..8).map(|_| generate_key(KEY_LENGTH)).collect();
    assert!(keys.iter().any(|k| k != &keys[0]));
}

#[test]
fn cleanup_succeeds_when_counts_match() {
    assert_eq!(cleanup_outcome(3, 3, None), Ok(()));
    assert_eq!(cleanup_outcome(0, 0, None), Ok(()));
}

#[test]
fn cleanup_reports_partial_update() {
    let err = cleanup_outcome(4, 2, None).unwrap_err();
    assert_eq!(err, CleanupError::PartialUpdate { updated: 2, deleted: 4 });
    assert_eq!(err.message(), "Update of deletion in table is partial 2/4");
}

#[test]
fn cleanup_reports_storage_error_first() {
    let err = cleanup_outcome(4, 2, Some("boom".to_string())).unwrap_err();
    assert_eq!(err, CleanupError::Storage("boom".to_string()));
    assert_eq!(err.message(), "boom");
}
