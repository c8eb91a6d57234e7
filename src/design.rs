use vstd::prelude::*;

use crate::matrix::Matrix;
use crate::ratio::{ceil_scaled, SplitRatio};

verus! {

/// The number of training rows when `n` rows are split by `ratio`.
pub open spec fn train_rows(n: nat, ratio: SplitRatio) -> nat {
    ceil_scaled(n, ratio.num(), ratio.den())
}

/// `row` is the polynomial expansion of `x` up to `degree`: the intercept
/// `one` first, then the value `power` gives for each exponent `1..=degree`.
pub open spec fn is_design_row<T, F: Fn(T, usize) -> T>(
    x: T,
    row: Seq<T>,
    degree: nat,
    one: T,
    power: F,
) -> bool {
    &&& row.len() == degree + 1
    &&& row[0] == one
    &&& forall|k: int| 1 <= k <= degree ==> power.ensures((x, k as usize), #[trigger] row[k])
}

/// Every row of `design` is the polynomial expansion of the same row of the
/// single-column `source`.
pub open spec fn is_design_of<T, F: Fn(T, usize) -> T>(
    source: Seq<Seq<T>>,
    design: Seq<Seq<T>>,
    degree: nat,
    one: T,
    power: F,
) -> bool {
    &&& design.len() == source.len()
    &&& forall|i: int|
        0 <= i < source.len() ==> is_design_row(source[i][0], #[trigger] design[i], degree, one, power)
}

/// Splits `source` by rows: the first `ceil(n * ratio)` rows form the
/// training set and the rest the test set, each in the order of `source`.
pub fn split_data<T: Copy>(source: &Matrix<T>, ratio: &SplitRatio) -> (r: (Matrix<T>, Matrix<T>))
    requires
        source.wf(),
        ratio.wf(),
    ensures
        r.0.wf(),
        r.1.wf(),
        r.0.width() == source.width(),
        r.1.width() == source.width(),
        r.0.height() + r.1.height() == source.height(),
        r.0.height() == train_rows(source.height(), *ratio),
        r.0.entries() == source.entries().subrange(0, train_rows(source.height(), *ratio) as int),
        r.1.entries() == source.entries().subrange(
            train_rows(source.height(), *ratio) as int,
            source.height() as int,
        ),
{
    let n = source.nrows();
    let split_index = ratio.split_index(n);
    let train = source.row_range(0, split_index);
    let test = source.row_range(split_index, n);
    (train, test)
}

/// The design matrix of a single-column `source`: row `i` holds `one`, then
/// `power(x_i, k)` for `k` in `1..=degree`, where `x_i` is the entry of row `i`.
pub fn polyfit_data<T: Copy, F: Fn(T, usize) -> T>(
    source: &Matrix<T>,
    degree: usize,
    one: T,
    power: F,
) -> (r: Matrix<T>)
    requires
        source.wf(),
        source.width() == 1,
        degree < usize::MAX,
        forall|a: T, k: usize| 1 <= k <= degree ==> power.requires((a, k)),
    ensures
        r.wf(),
        r.width() == degree + 1,
        r.height() == source.height(),
        is_design_of(source.entries(), r.entries(), degree as nat, one, power),
        forall|i: int| 0 <= i < r.height() ==> #[trigger] r.entries()[i][0] == one,
{
    let n = source.nrows();
    let mut rows: Vec<Vec<T>> = Vec::new();
    let mut i: usize = 0;
    while i < n
        invariant
            source.wf(),
            source.width() == 1,
            n == source.height(),
            degree < usize::MAX,
            forall|a: T, k: usize| 1 <= k <= degree ==> power.requires((a, k)),
            0 <= i <= n,
            rows@.len() == i,
            forall|j: int|
                0 <= j < i ==> is_design_row(
                    source.entries()[j][0],
                    #[trigger] rows@[j]@,
                    degree as nat,
                    one,
                    power,
                ),
        decreases n - i,
    {
        let x = *source.get(i, 0);
        let mut row: Vec<T> = Vec::new();
        row.push(one);
        let mut k: usize = 1;
        while k <= degree
            invariant
                forall|a: T, k: usize| 1 <= k <= degree ==> power.requires((a, k)),
                degree < usize::MAX,
                1 <= k <= degree + 1,
                row@.len() == k,
                row@[0] == one,
                forall|m: int| 1 <= m < k ==> power.ensures((x, m as usize), #[trigger] row@[m]),
            decreases degree + 1 - k,
        {
            let value = power(x, k);
            row.push(value);
            k = k + 1;
        }
        rows.push(row);
        i = i + 1;
    }
    let r = Matrix::from_uniform_rows(rows, degree + 1);
    assert forall|j: int| 0 <= j < r.height() implies #[trigger] r.entries()[j][0] == one by {
        assert(is_design_row(source.entries()[j][0], rows@[j]@, degree as nat, one, power));
    }
    r
}

/// Expands `source` into its design matrix, then splits that matrix by rows
/// as `split_data` does, so that both parts share the same columns.
pub fn split_polyfit_data<T: Copy, F: Fn(T, usize) -> T>(
    source: &Matrix<T>,
    degree: usize,
    ratio: &SplitRatio,
    one: T,
    power: F,
) -> (r: (Matrix<T>, Matrix<T>))
    requires
        source.wf(),
        source.width() == 1,
        ratio.wf(),
        degree < usize::MAX,
        forall|a: T, k: usize| 1 <= k <= degree ==> power.requires((a, k)),
    ensures
        r.0.wf(),
        r.1.wf(),
        r.0.width() == degree + 1,
        r.1.width() == degree + 1,
        r.0.height() + r.1.height() == source.height(),
        r.0.height() == train_rows(source.height(), *ratio),
        is_design_of(
            source.entries().subrange(0, train_rows(source.height(), *ratio) as int),
            r.0.entries(),
            degree as nat,
            one,
            power,
        ),
        is_design_of(
            source.entries().subrange(
                train_rows(source.height(), *ratio) as int,
                source.height() as int,
            ),
            r.1.entries(),
            degree as nat,
            one,
            power,
        ),
{
    let design = polyfit_data(source, degree, one, power);
    let (train, test) = split_data(&design, ratio);
    let ghost k = train_rows(source.height(), *ratio) as int;
    let ghost n = source.height() as int;
    assert forall|i: int| 0 <= i < k implies is_design_row(
        source.entries().subrange(0, k)[i][0],
        #[trigger] train.entries()[i],
        degree as nat,
        one,
        power,
    ) by {
        assert(is_design_row(source.entries()[i][0], design.entries()[i], degree as nat, one, power));
    }
    assert forall|i: int| 0 <= i < n - k implies is_design_row(
        source.entries().subrange(k, n)[i][0],
        #[trigger] test.entries()[i],
        degree as nat,
        one,
        power,
    ) by {
        assert(is_design_row(
            source.entries()[k + i][0],
            design.entries()[k + i],
            degree as nat,
            one,
            power,
        ));
    }
    (train, test)
}

} // verus!
