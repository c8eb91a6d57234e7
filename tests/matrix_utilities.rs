use linear_regression::design::{polyfit_data, split_data, split_polyfit_data};
use linear_regression::error::RegressionError;
use linear_regression::matrix::Matrix;
use linear_regression::ratio::SplitRatio;

fn column(values: &[f64]) -> Matrix<f64> {
    Matrix::from_column(&values.to_vec())
}

fn power(x: f64, k: usize) -> f64 {
    x.powi(k as i32)
}

fn rows_of(m: Matrix<f64>) -> Vec<Vec<f64>> {
    m.into_rows()
}

#[test]
fn split_index_is_ceiling_of_scaled_count() {
    let r = SplitRatio::new(4, 5).unwrap();
    assert_eq!(r.split_index(5), 4);
    assert_eq!(r.split_index(7), 6);
    assert_eq!(r.split_index(10), 8);
    assert_eq!(r.split_index(0), 0);
    let third = SplitRatio::new(1, 3).unwrap();
    assert_eq!(third.split_index(4), 2);
    assert_eq!(third.split_index(3), 1);
}

#[test]
fn split_ratio_rejects_values_outside_unit_interval() {
    assert!(SplitRatio::new(1, 0).is_none());
    assert!(SplitRatio::new(6, 5).is_none());
    assert!(SplitRatio::new(0, 5).is_some());
    let whole = SplitRatio::new(5, 5).unwrap();
    assert_eq!(whole.numerator(), 5);
    assert_eq!(whole.denominator(), 5);
}

#[test]
fn split_index_of_largest_count() {
    let r = SplitRatio::new(u64::MAX - 1, u64::MAX).unwrap();
    assert_eq!(r.split_index(usize::MAX), usize::MAX - 1);
    let all = SplitRatio::new(u64::MAX, u64::MAX).unwrap();
    assert_eq!(all.split_index(usize::MAX), usize::MAX);
}

#[test]
fn split_data_keeps_order_and_every_row() {
    let x = column(&[1.0, 2.0, 3.0, 4.0, 5.0]);
    let r = SplitRatio::new(4, 5).unwrap();
    let (train, test) = split_data(&x, &r);
    assert_eq!(train.nrows() + test.nrows(), 5);
    assert_eq!(train.ncols(), 1);
    assert_eq!(test.ncols(), 1);
    assert_eq!(rows_of(train), vec![vec![1.0], vec![2.0], vec![3.0], vec![4.0]]);
    assert_eq!(rows_of(test), vec![vec![5.0]]);
}

#[test]
fn split_data_of_seven_rows_partitions_exactly() {
    let x = column(&[10.0, 20.0, 30.0, 40.0, 50.0, 60.0, 70.0]);
    let r = SplitRatio::new(4, 5).unwrap();
    let (train, test) = split_data(&x, &r);
    assert_eq!(train.nrows(), 6);
    assert_eq!(test.nrows(), 1);
    assert_eq!(*test.get(0, 0), 70.0);
    assert_eq!(train.column(0), vec![10.0, 20.0, 30.0, 40.0, 50.0, 60.0]);
}

#[test]
fn split_data_with_whole_ratio_leaves_test_empty() {
    let x = column(&[1.0, 2.0, 3.0]);
    let (train, test) = split_data(&x, &SplitRatio::new(1, 1).unwrap());
    assert_eq!(train.nrows(), 3);
    assert_eq!(test.nrows(), 0);
    assert_eq!(test.ncols(), 1);
}

#[test]
fn split_data_with_zero_ratio_leaves_train_empty() {
    let x = column(&[1.0, 2.0, 3.0]);
    let (train, test) = split_data(&x, &SplitRatio::new(0, 1).unwrap());
    assert_eq!(train.nrows(), 0);
    assert_eq!(test.nrows(), 3);
}

#[test]
fn split_data_of_empty_matrix() {
    let x = column(&[]);
    let (train, test) = split_data(&x, &SplitRatio::new(4, 5).unwrap());
    assert_eq!(train.nrows(), 0);
    assert_eq!(test.nrows(), 0);
}

#[test]
fn polyfit_first_column_is_all_ones() {
    let x = column(&[0.0, -2.5, 3.0, 1e10, f64::NAN]);
    for degree in 0..4 {
        let design = polyfit_data(&x, degree, 1.0, power);
        assert_eq!(design.nrows(), 5);
        assert_eq!(design.ncols(), degree + 1);
        assert_eq!(design.column(0), vec![1.0; 5]);
    }
}

#[test]
fn polyfit_holds_powers_of_each_value() {
    let x = column(&[2.0, 3.0, 0.0]);
    let design = polyfit_data(&x, 3, 1.0, power);
    assert_eq!(
        rows_of(design),
        vec![vec![1.0, 2.0, 4.0, 8.0], vec![1.0, 3.0, 9.0, 27.0], vec![1.0, 0.0, 0.0, 0.0]]
    );
}

#[test]
fn polyfit_of_degree_one_is_intercept_and_value() {
    let x = column(&[1.5, -4.0]);
    let design = polyfit_data(&x, 1, 1.0, power);
    assert_eq!(rows_of(design), vec![vec![1.0, 1.5], vec![1.0, -4.0]]);
}

#[test]
fn split_polyfit_expands_then_splits() {
    let x = column(&[1.0, 2.0, 3.0, 4.0, 5.0]);
    let (train, test) = split_polyfit_data(&x, 2, &SplitRatio::new(4, 5).unwrap(), 1.0, power);
    assert_eq!(train.ncols(), 3);
    assert_eq!(test.ncols(), 3);
    assert_eq!(train.nrows() + test.nrows(), 5);
    assert_eq!(rows_of(test), vec![vec![1.0, 5.0, 25.0]]);
    assert_eq!(train.row(3).clone(), vec![1.0, 4.0, 16.0]);
}

#[test]
fn ragged_rows_are_a_shape_mismatch() {
    let r = Matrix::from_rows(vec![vec![1.0, 2.0], vec![3.0]], 2);
    assert_eq!(r.err(), Some(RegressionError::ShapeMismatch));
    let ok = Matrix::from_rows(vec![vec![1.0, 2.0], vec![3.0, 4.0]], 2).unwrap();
    assert_eq!(ok.nrows(), 2);
    assert_eq!(ok.ncols(), 2);
    assert_eq!(*ok.get(1, 0), 3.0);
    let empty: Matrix<f64> = Matrix::from_rows(Vec::new(), 3).unwrap();
    assert_eq!(empty.nrows(), 0);
    assert_eq!(empty.ncols(), 3);
}
