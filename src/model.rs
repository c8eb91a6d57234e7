use vstd::prelude::*;

use crate::design::{is_design_of, split_data, split_polyfit_data, train_rows};
use crate::error::RegressionError;
use crate::matrix::Matrix;
use crate::ratio::SplitRatio;

verus! {

/// The matrices a least-squares fit works on: the design matrix and the
/// response column, each split into training and test rows.
pub struct FitData<T> {
    pub design_train: Matrix<T>,
    pub design_test: Matrix<T>,
    pub y_train: Matrix<T>,
    pub y_test: Matrix<T>,
}

/// `x` and `y` are both single columns of the same length.
pub open spec fn paired_columns<T>(x: Matrix<T>, y: Matrix<T>) -> bool {
    x.width() == 1 && y.width() == 1 && x.height() == y.height()
}

/// `data` is what a fit of `degree` on `x`, `y`, split by `ratio`, works on.
pub open spec fn is_fit_data<T, F: Fn(T, usize) -> T>(
    data: FitData<T>,
    x: Matrix<T>,
    y: Matrix<T>,
    degree: nat,
    ratio: SplitRatio,
    one: T,
    power: F,
) -> bool {
    let n = x.height();
    let k = train_rows(n, ratio);
    &&& data.design_train.wf()
    &&& data.design_test.wf()
    &&& data.y_train.wf()
    &&& data.y_test.wf()
    &&& data.design_train.width() == degree + 1
    &&& data.design_test.width() == degree + 1
    &&& data.y_train.width() == 1
    &&& data.y_test.width() == 1
    &&& data.design_train.height() == k
    &&& data.design_train.height() + data.design_test.height() == n
    &&& is_design_of(x.entries().subrange(0, k as int), data.design_train.entries(), degree, one, power)
    &&& is_design_of(x.entries().subrange(k as int, n as int), data.design_test.entries(), degree, one, power)
    &&& data.y_train.entries() == y.entries().subrange(0, k as int)
    &&& data.y_test.entries() == y.entries().subrange(k as int, n as int)
}

/// Prepares a fit of a polynomial of `degree` to the single columns `x` and
/// `y`: builds the design matrix of `x` and splits it and `y` by `ratio`.
/// Mismatched shapes give `ShapeMismatch`. Fewer training rows than
/// `degree + 1` leave the Gram matrix singular and give `NumericalError`.
pub fn prepare_fit<T: Copy, F: Fn(T, usize) -> T>(
    x: &Matrix<T>,
    y: &Matrix<T>,
    degree: usize,
    ratio: &SplitRatio,
    one: T,
    power: F,
) -> (r: Result<FitData<T>, RegressionError>)
    requires
        x.wf(),
        y.wf(),
        ratio.wf(),
        degree < usize::MAX,
        forall|a: T, k: usize| 1 <= k <= degree ==> power.requires((a, k)),
    ensures
        !paired_columns(*x, *y) ==> r == Err::<FitData<T>, _>(RegressionError::ShapeMismatch),
        paired_columns(*x, *y) && degree >= train_rows(x.height(), *ratio) ==> r == Err::<
            FitData<T>,
            _,
        >(RegressionError::NumericalError),
        paired_columns(*x, *y) && degree < train_rows(x.height(), *ratio) ==> r is Ok,
        r matches Ok(data) ==> is_fit_data(data, *x, *y, degree as nat, *ratio, one, power),
{
    if x.ncols() != 1 || y.ncols() != 1 || x.nrows() != y.nrows() {
        return Err(RegressionError::ShapeMismatch);
    }
    if degree >= ratio.split_index(x.nrows()) {
        return Err(RegressionError::NumericalError);
    }
    let (design_train, design_test) = split_polyfit_data(x, degree, ratio, one, power);
    let (y_train, y_test) = split_data(y, ratio);
    Ok(FitData { design_train, design_test, y_train, y_test })
}

/// Checks that `design` can be multiplied by a coefficient column of
/// `coefficient_count` rows.
pub fn check_design<T>(design: &Matrix<T>, coefficient_count: usize) -> (r: Result<(), RegressionError>)
    ensures
        r is Ok <==> design.width() == coefficient_count,
        r matches Err(e) ==> e == RegressionError::ShapeMismatch,
{
    if design.ncols() == coefficient_count {
        Ok(())
    } else {
        Err(RegressionError::ShapeMismatch)
    }
}

/// Checks that predictions from `design` can be compared with the single
/// column `actual`, for a model of `coefficient_count` coefficients.
pub fn check_evaluation<T>(
    design: &Matrix<T>,
    actual: &Matrix<T>,
    coefficient_count: usize,
) -> (r: Result<(), RegressionError>)
    ensures
        r is Ok <==> (design.width() == coefficient_count && actual.width() == 1
            && actual.height() == design.height()),
        r matches Err(e) ==> e == RegressionError::ShapeMismatch,
{
    if design.ncols() == coefficient_count && actual.ncols() == 1 && actual.nrows() == design.nrows() {
        Ok(())
    } else {
        Err(RegressionError::ShapeMismatch)
    }
}

/// The divisor of the residual standard error: `n - p` with `p` one more than
/// the number of coefficients. It is not positive when `n <= p`.
pub fn residual_degrees_of_freedom(n: usize, coefficient_count: usize) -> (r: i128)
    ensures
        r == n - (coefficient_count + 1),
{
    (n as i128) - (coefficient_count as i128) - 1
}

} // verus!
