use goxlr_updater::version::{
    classify_update, version_newer_or_equal_to, UpdateKind, VersionNumber,
};

#[test]
fn equal_versions_count_as_newer_or_equal() {
    assert!(version_newer_or_equal_to(
        &VersionNumber(1, 2, 3, 4),
        VersionNumber(1, 2, 3, 4)
    ));
}

#[test]
fn lower_build_is_not_newer() {
    assert!(!version_newer_or_equal_to(
        &VersionNumber(1, 2, 3, 3),
        VersionNumber(1, 2, 3, 4)
    ));
}

#[test]
fn higher_major_wins_over_lower_fields() {
    assert!(version_newer_or_equal_to(
        &VersionNumber(2, 0, 0, 0),
        VersionNumber(1, 9, 9, 9)
    ));
    assert!(!version_newer_or_equal_to(
        &VersionNumber(1, 9, 9, 9),
        VersionNumber(2, 0, 0, 0)
    ));
}

#[test]
fn minor_and_patch_decide_in_turn() {
    assert!(version_newer_or_equal_to(
        &VersionNumber(1, 3, 0, 0),
        VersionNumber(1, 2, 9, 9)
    ));
    assert!(!version_newer_or_equal_to(
        &VersionNumber(1, 2, 9, 9),
        VersionNumber(1, 3, 0, 0)
    ));
    assert!(version_newer_or_equal_to(
        &VersionNumber(1, 2, 4, 0),
        VersionNumber(1, 2, 3, 9)
    ));
    assert!(!version_newer_or_equal_to(
        &VersionNumber(1, 2, 3, 9),
        VersionNumber(1, 2, 4, 0)
    ));
}

#[test]
fn order_is_total_on_samples() {
    let samples = [
        VersionNumber(0, 0, 0, 0),
        VersionNumber(1, 2, 3, 4),
        VersionNumber(1, 2, 3, 5),
        VersionNumber(1, 3, 0, 0),
        VersionNumber(2, 0, 0, 0),
        VersionNumber(u32::MAX, u32::MAX, u32::MAX, u32::MAX),
    ];
    for (i, a) in samples.iter().enumerate() {
        for (j, b) in samples.iter().enumerate() {
            assert_eq!(version_newer_or_equal_to(a, *b), i >= j);
            assert!(version_newer_or_equal_to(a, *b) || version_newer_or_equal_to(b, *a));
        }
    }
}

#[test]
fn version_is_written_with_dots() {
    assert_eq!(VersionNumber(1, 2, 52, 7).to_text(), "1.2.52.7");
    assert_eq!(VersionNumber(0, 0, 0, 0).to_text(), "0.0.0.0");
    assert_eq!(
        VersionNumber(u32::MAX, 10, 100, 4294967295).to_text(),
        "4294967295.10.100.4294967295"
    );
}

#[test]
fn updates_are_classified() {
    let current = VersionNumber(1, 2, 3, 4);
    assert_eq!(
        classify_update(&current, VersionNumber(1, 2, 3, 4)),
        UpdateKind::Reinstall
    );
    assert_eq!(
        classify_update(&current, VersionNumber(1, 2, 3, 3)),
        UpdateKind::Downgrade
    );
    assert_eq!(
        classify_update(&current, VersionNumber(1, 2, 3, 5)),
        UpdateKind::Upgrade
    );
    assert_eq!(
        classify_update(&current, VersionNumber(2, 0, 0, 0)),
        UpdateKind::Upgrade
    );
}
