use cvdoc::orientation::orientation_from_tag;
use cvdoc::orientation::resolve_orientation;
use cvdoc::orientation::Orientation;

#[test]
fn metadata_tag_wins_over_decoder_report() {
    assert_eq!(resolve_orientation(Some(3), Some(6)), Orientation::Rotate180);
    assert_eq!(resolve_orientation(Some(6), Some(1)), Orientation::Rotate90);
    assert_eq!(resolve_orientation(Some(8), Some(3)), Orientation::Rotate270);
}

#[test]
fn decoder_report_used_when_metadata_absent_or_invalid() {
    assert_eq!(resolve_orientation(None, Some(6)), Orientation::Rotate90);
    assert_eq!(resolve_orientation(Some(0), Some(6)), Orientation::Rotate90);
    assert_eq!(resolve_orientation(Some(9), Some(2)), Orientation::FlipH);
}

#[test]
fn identity_when_both_absent_or_invalid() {
    assert_eq!(resolve_orientation(None, None), Orientation::Identity);
    assert_eq!(resolve_orientation(Some(0), Some(42)), Orientation::Identity);
}

#[test]
fn tag_mapping_covers_the_eight_transforms() {
    assert_eq!(orientation_from_tag(1), Some(Orientation::Identity));
    assert_eq!(orientation_from_tag(2), Some(Orientation::FlipH));
    assert_eq!(orientation_from_tag(3), Some(Orientation::Rotate180));
    assert_eq!(orientation_from_tag(4), Some(Orientation::FlipV));
    assert_eq!(orientation_from_tag(5), Some(Orientation::Rotate90FlipH));
    assert_eq!(orientation_from_tag(6), Some(Orientation::Rotate90));
    assert_eq!(orientation_from_tag(7), Some(Orientation::Rotate270FlipH));
    assert_eq!(orientation_from_tag(8), Some(Orientation::Rotate270));
    assert_eq!(orientation_from_tag(0), None);
    assert_eq!(orientation_from_tag(9), None);
}
