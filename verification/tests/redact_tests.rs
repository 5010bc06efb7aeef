use smithy_core::redact::{
    noop_path_marker, GreedyLabel, Labels, MakePath, MarkAll, MarkIndices, SensitiveGreedyPath,
    SensitivePath,
};

const PATHS: [&str; 6] = ["/b/c/g", "/b/c/g/", "/g", "/", "/b/", "/b/c/d;p"];

#[test]
fn mark_none() {
    for original in PATHS {
        let expected = original.to_string();
        let output = SensitivePath::new(original).redacted();
        assert_eq!(output, expected, "original = {original}");
    }
}

#[test]
fn mark_all() {
    let expecteds = [
        "/{redacted}/{redacted}/{redacted}",
        "/{redacted}/{redacted}/{redacted}/{redacted}",
        "/{redacted}",
        "/{redacted}",
        "/{redacted}/{redacted}",
        "/{redacted}/{redacted}/{redacted}",
    ];
    for (original, expected) in PATHS.into_iter().zip(expecteds) {
        let output = SensitivePath::new(original).mark(MarkAll).redacted();
        assert_eq!(output, expected, "original = {original}");
    }
}

#[test]
fn greedy() {
    let expecteds = [
        "/b/{redacted}",
        "/b/{redacted}",
        "/g",
        "/",
        "/b/{redacted}",
        "/b/{redacted}",
    ];
    for (original, expected) in PATHS.into_iter().zip(expecteds) {
        let output = SensitiveGreedyPath::new(original, 3).redacted();
        assert_eq!(output, expected, "original = {original}");
    }
}

#[test]
fn mark_selected_segments() {
    let marker = MarkIndices { indices: vec![1] };
    let output = SensitivePath::new("/a/b/c").mark(marker).redacted();
    assert_eq!(output, "/a/{redacted}/c");
}

#[test]
fn noop_marker_marks_nothing() {
    assert!(!noop_path_marker(0));
    assert!(!noop_path_marker(17));
}

#[test]
fn make_path_dispatches_both_schemes() {
    let labels = Labels(MarkAll);
    let out = labels.make("/x/y").redacted();
    assert_eq!(out, "/{redacted}/{redacted}");
    let greedy = GreedyLabel(3);
    let out = greedy.make("/x/yz").redacted();
    assert_eq!(out, "/x/{redacted}");
}
