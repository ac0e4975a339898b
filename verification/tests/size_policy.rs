use cvdoc::calculate_target_size;

#[test]
fn unchanged_when_within_bound() {
    assert_eq!(calculate_target_size(500, 400, 800), (500, 400));
    assert_eq!(calculate_target_size(800, 800, 800), (800, 800));
    assert_eq!(calculate_target_size(1, 1, 1), (1, 1));
}

#[test]
fn landscape_scales_to_bound() {
    assert_eq!(calculate_target_size(4000, 3000, 800), (800, 600));
    assert_eq!(calculate_target_size(4000, 3000, 2000), (2000, 1500));
}

#[test]
fn portrait_scales_to_bound() {
    assert_eq!(calculate_target_size(3000, 4000, 2000), (1500, 2000));
    assert_eq!(calculate_target_size(3000, 4000, 800), (600, 800));
}

#[test]
fn shorter_side_rounds_to_nearest() {
    // 333 * 100 / 1000 = 33.3 rounds down
    assert_eq!(calculate_target_size(1000, 333, 100), (100, 33));
    // 337 * 100 / 1000 = 33.7 rounds up
    assert_eq!(calculate_target_size(1000, 337, 100), (100, 34));
    // 3 * 2 / 4 = 1.5, halves round up
    assert_eq!(calculate_target_size(4, 3, 2), (2, 2));
}

#[test]
fn extreme_aspect_ratio_floors_at_one() {
    assert_eq!(calculate_target_size(10000, 1, 100), (100, 1));
    assert_eq!(calculate_target_size(1, 10000, 100), (1, 100));
    assert_eq!(calculate_target_size(4_000_000_000, 1, 2000), (2000, 1));
}

#[test]
fn square_input_treated_as_landscape() {
    assert_eq!(calculate_target_size(5000, 5000, 2000), (2000, 2000));
}
