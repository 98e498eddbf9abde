use compressr::resize::{compute_target_dims, fit_within};

#[test]
fn scale_100_keeps_dimensions() {
    assert_eq!(compute_target_dims(640, 480, 100, None, None), Some((640, 480)));
    assert_eq!(compute_target_dims(1, 1, 100, None, None), Some((1, 1)));
}

#[test]
fn scale_percent_floors_both_axes() {
    // floor(123 * 37 / 100) = 45, floor(77 * 37 / 100) = 28
    assert_eq!(compute_target_dims(123, 77, 37, None, None), Some((45, 28)));
    assert_eq!(compute_target_dims(200, 100, 50, None, None), Some((100, 50)));
}

#[test]
fn scale_zero_is_degenerate() {
    assert_eq!(compute_target_dims(640, 480, 0, None, None), None);
}

#[test]
fn scale_to_zero_axis_is_degenerate() {
    // floor(3 * 10 / 100) = 0
    assert_eq!(compute_target_dims(3, 3000, 10, None, None), None);
}

#[test]
fn upscale_beyond_u32_is_degenerate() {
    assert_eq!(compute_target_dims(u32::MAX, 10, 200, None, None), None);
}

#[test]
fn exact_dimensions_override_scale() {
    assert_eq!(compute_target_dims(640, 480, 50, Some(100), Some(42)), Some((100, 42)));
}

#[test]
fn exact_dimensions_zero_is_degenerate() {
    assert_eq!(compute_target_dims(640, 480, 50, Some(0), Some(42)), None);
}

#[test]
fn one_sided_dimension_falls_back_to_scale() {
    assert_eq!(compute_target_dims(200, 100, 50, Some(9), None), Some((100, 50)));
    assert_eq!(compute_target_dims(200, 100, 50, None, Some(9)), Some((100, 50)));
}

#[test]
fn fit_within_width_bound() {
    assert_eq!(fit_within(4000, 3000, 1000, 0), (1000, 750));
}

#[test]
fn fit_within_height_bound() {
    assert_eq!(fit_within(4000, 3000, 0, 300), (400, 300));
}

#[test]
fn fit_within_width_bound_wins_over_height() {
    assert_eq!(fit_within(4000, 3000, 2000, 10), (2000, 1500));
}

#[test]
fn fit_within_inside_bounds_is_unchanged() {
    assert_eq!(fit_within(800, 600, 1000, 1000), (800, 600));
    assert_eq!(fit_within(800, 600, 0, 0), (800, 600));
}
