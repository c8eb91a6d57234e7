use linear_regression::display_options::{DisplayOptions, DEFAULT_COLUMN_WIDTH};
use linear_regression::report::coefficients_to_string;
use linear_regression::sample_options::{SampleOptions, SampleOptionsBuilder};

fn texts(values: &[&str]) -> Vec<String> {
    values.iter().map(|s| s.to_string()).collect()
}

#[test]
fn coefficients_are_labelled_and_joined() {
    let s = coefficients_to_string(&texts(&["1.00000", "2.00000"]));
    assert_eq!(s, "\u{3b2}0 = 1.00000,\n\u{3b2}1 = 2.00000");
}

#[test]
fn single_coefficient_has_no_separator() {
    assert_eq!(coefficients_to_string(&texts(&["-0.12346"])), "\u{3b2}0 = -0.12346");
}

#[test]
fn no_coefficients_give_empty_text() {
    assert_eq!(coefficients_to_string(&Vec::new()), "");
}

#[test]
fn labels_past_nine_have_two_digits() {
    let values: Vec<String> = (0..12).map(|i| format!("{:.5}", i as f64)).collect();
    let s = coefficients_to_string(&values);
    let lines: Vec<&str> = s.split(",\n").collect();
    assert_eq!(lines.len(), 12);
    assert_eq!(lines[9], "\u{3b2}9 = 9.00000");
    assert_eq!(lines[10], "\u{3b2}10 = 10.00000");
    assert_eq!(lines[11], "\u{3b2}11 = 11.00000");
}

#[test]
fn display_options_default_width() {
    assert_eq!(DisplayOptions::new().column_width, 100);
    assert_eq!(DisplayOptions::default(), DisplayOptions::new());
    assert_eq!(DEFAULT_COLUMN_WIDTH, 100);
}

#[test]
fn sample_options_default_to_every_row_in_order() {
    let o = SampleOptions::new();
    assert_eq!(o.sample_size, usize::MAX);
    assert!(!o.shuffle);
    assert_eq!(o.display_options.column_width, 100);
    assert_eq!(SampleOptions::default(), o);
}

#[test]
fn builder_sets_size_and_shuffle() {
    let o = SampleOptions::builder().sample_size(10).shuffle(true).build();
    assert_eq!(o.sample_size, 10);
    assert!(o.shuffle);
    assert_eq!(o.display_options, DisplayOptions::new());
    let p = SampleOptionsBuilder::new().shuffle(false).sample_size(15).build();
    assert_eq!(p.sample_size, 15);
    assert!(!p.shuffle);
    let d = SampleOptionsBuilder::default().build();
    assert_eq!(d, SampleOptions::new());
}
