use devtools::worker::history::QuickInputHistory;

fn history(values: &[&str]) -> QuickInputHistory {
    QuickInputHistory::new(values.iter().map(|value| value.to_string()).collect())
}

#[test]
fn arrow_keys_walk_through_the_history() {
    let mut h = history(&["first", "second"]);
    assert_eq!(h.up().as_deref(), Some("second"));
    assert_eq!(h.up().as_deref(), Some("first"));
    assert_eq!(h.up().as_deref(), Some("first"));
    assert_eq!(h.down().as_deref(), Some("second"));
    assert_eq!(h.down().as_deref(), Some(""));
    assert_eq!(h.down().as_deref(), Some(""));
    assert_eq!(h.up().as_deref(), Some("second"));
}

#[test]
fn arrow_keys_do_nothing_without_history() {
    let mut h = history(&[]);
    assert_eq!(h.up(), None);
    assert_eq!(h.down(), None);
}

#[test]
fn submitting_adds_non_empty_text_and_rewinds() {
    let mut h = history(&["a"]);
    assert_eq!(h.up().as_deref(), Some("a"));
    assert_eq!(h.submit(String::new()), None);
    assert_eq!(h.down().as_deref(), Some(""));
    assert_eq!(h.submit("b".to_owned()).as_deref(), Some("b"));
    assert_eq!(h.up().as_deref(), Some("b"));
    assert_eq!(h.up().as_deref(), Some("a"));
    h.rewind();
    assert_eq!(h.up().as_deref(), Some("b"));
}
