use devcheck::watch::{is_relevant_change, should_rerun, watch_step};

fn exts(v: &[Option<&str>]) -> Vec<Option<String>> {
    v.iter().map(|e| e.map(|s| s.to_string())).collect()
}

#[test]
fn rust_and_toml_changes_count() {
    assert!(is_relevant_change(true, &exts(&[Some("rs")])));
    assert!(is_relevant_change(true, &exts(&[None, Some("md"), Some("toml")])));
}

#[test]
fn other_changes_do_not_count() {
    assert!(!is_relevant_change(true, &exts(&[Some("md"), None])));
    assert!(!is_relevant_change(true, &exts(&[])));
    assert!(!is_relevant_change(false, &exts(&[Some("rs")])));
    assert!(!is_relevant_change(true, &exts(&[Some("RS")])));
}

#[test]
fn debounce_is_one_second() {
    assert!(!should_rerun(0));
    assert!(!should_rerun(1_000_000_000));
    assert!(should_rerun(1_000_000_001));
}

#[test]
fn rerun_needs_a_relevant_change_after_the_debounce() {
    assert!(watch_step(true, &exts(&[Some("rs")]), 1_500_000_000));
    assert!(!watch_step(true, &exts(&[Some("rs")]), 999_000_000));
    assert!(!watch_step(true, &exts(&[Some("md")]), 5_000_000_000));
    assert!(!watch_step(false, &exts(&[Some("toml")]), 5_000_000_000));
    assert!(watch_step(true, &exts(&[None, Some("toml")]), 1_000_000_001));
}
