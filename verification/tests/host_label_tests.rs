use smithy_core::host_label::is_valid_host_label;

#[test]
fn plain_label_is_valid() {
    assert!(is_valid_host_label("abc", false));
}

#[test]
fn label_must_start_alphabetic() {
    assert!(!is_valid_host_label("1abc", false));
}

#[test]
fn label_longer_than_63_is_invalid() {
    let label = "a".repeat(64);
    assert!(!is_valid_host_label(&label, false));
    let label63 = "a".repeat(63);
    assert!(is_valid_host_label(&label63, false));
}

#[test]
fn empty_label_is_invalid() {
    assert!(!is_valid_host_label("", false));
    assert!(!is_valid_host_label("", true));
}

#[test]
fn dotted_labels_validate_each_component() {
    assert!(is_valid_host_label("a.b.c", true));
    assert!(!is_valid_host_label("a..b", true));
    assert!(!is_valid_host_label("a.b.c", false));
}

#[test]
fn hyphens_and_digits_allowed_after_first() {
    assert!(is_valid_host_label("a-1b", false));
    assert!(!is_valid_host_label("a_b", false));
    assert!(!is_valid_host_label("-ab", false));
}
