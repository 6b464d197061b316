use mandelbrot::color::get_color;
use mandelbrot::escape::escape_time;
use mandelbrot::mapper::{map_col, map_row};
use mandelbrot::render::naive;

// Coordinates are fixed-point ticks: 16777216 ticks (2^24) per plane unit.

#[test]
fn map_corner_columns() {
    // column 0 of width 2 sits on the left edge, -2.5; column 1 on -0.75
    assert_eq!(map_col(0, 2), -41943040);
    assert_eq!(map_col(1, 2), -12582912);
}

#[test]
fn map_rows_span_window() {
    // row 0 of height 2 sits on the top edge, -1.0; row 1 on 0.0
    assert_eq!(map_row(0, 2), -16777216);
    assert_eq!(map_row(1, 2), 0);
}

#[test]
fn mapped_points_stay_in_window() {
    for i in 0..7u32 {
        let re = map_col(i, 7);
        assert!(re >= -41943040);
        assert!(re < 16777216);
        let im = map_row(i, 7);
        assert!(im >= -16777216);
        assert!(im < 16777216);
    }
}

#[test]
fn evaluator_is_pure() {
    let first = escape_time(-12582912, 4194304, 300);
    let second = escape_time(-12582912, 4194304, 300);
    assert_eq!(first, second);
}

#[test]
fn far_point_costs_one_step() {
    // re = 3.0: the orbit starts at the origin, lands on the point after
    // one iteration, and only then fails the bailout test
    assert_eq!(escape_time(3 * 16777216, 0, 10), 1);
    assert_eq!(escape_time(3 * 16777216, 0, 255), 1);
    assert_eq!(escape_time(3 * 16777216, 0, 0), 0);
}

#[test]
fn origin_never_escapes() {
    assert_eq!(escape_time(0, 0, 1), 1);
    assert_eq!(escape_time(0, 0, 255), 255);
    assert_eq!(escape_time(0, 0, 500), 500);
}

#[test]
fn intensity_is_identity_at_default_cap() {
    assert_eq!(get_color(100, 255), (100, 100, 100));
    assert_eq!(get_color(0, 255), (0, 0, 0));
    assert_eq!(get_color(255, 255), (255, 255, 255));
}

#[test]
fn intensity_scales_and_rounds() {
    // round((100 / 500) * 255) == 51
    assert_eq!(get_color(100, 500), (51, 51, 51));
    // round((1 / 10) * 255) == round(25.5) == 26, halves round up
    assert_eq!(get_color(1, 10), (26, 26, 26));
    assert_eq!(get_color(3, 10), (77, 77, 77));
    assert_eq!(get_color(10, 10), (255, 255, 255));
}

#[test]
fn out_of_range_count_is_white() {
    assert_eq!(get_color(256, 255), (255, 255, 255));
    assert_eq!(get_color(11, 10), (255, 255, 255));
    assert_eq!(get_color(501, 500), (255, 255, 255));
    assert_eq!(get_color(u32::MAX, 1), (255, 255, 255));
}

#[test]
fn render_two_by_two() {
    let img = naive(2, 2, 10);
    // column 0 samples re = -2.5: the orbit escapes after one step
    assert_eq!(img.get_pixel(0, 0), (26, 26, 26));
    assert_eq!(img.get_pixel(0, 1), (26, 26, 26));
    // (-0.75, -1.0) escapes after three steps
    assert_eq!(img.get_pixel(1, 0), (77, 77, 77));
    // (-0.75, 0.0) lies in the set: the cap is reached, full white
    assert_eq!(img.get_pixel(1, 1), (255, 255, 255));
}

#[test]
fn render_uses_identity_mapping_at_default_cap() {
    let img = naive(2, 2, 255);
    assert_eq!(img.get_pixel(0, 0), (1, 1, 1));
    assert_eq!(img.get_pixel(1, 1), (255, 255, 255));
}

#[test]
fn raw_bytes_are_row_major_rgb() {
    let img = naive(2, 2, 10);
    let raw = img.into_raw();
    assert_eq!(raw.len(), 12);
    assert_eq!(raw, vec![26, 26, 26, 77, 77, 77, 26, 26, 26, 255, 255, 255]);
}
