use vstd::prelude::*;

use crate::error::RegressionError;

verus! {

/// The sequence views of a vector of rows.
pub open spec fn rows_view<T>(rows: Seq<Vec<T>>) -> Seq<Seq<T>> {
    rows.map_values(|row: Vec<T>| row@)
}

/// A dense matrix stored row by row, with a column count that is kept even
/// when the matrix has no rows.
pub struct Matrix<T> {
    rows: Vec<Vec<T>>,
    ncols: usize,
}

impl<T> Matrix<T> {
    /// The entries, row by row.
    pub closed spec fn entries(&self) -> Seq<Seq<T>> {
        rows_view(self.rows@)
    }

    /// The number of columns.
    pub closed spec fn width(&self) -> nat {
        self.ncols as nat
    }

    /// The number of rows.
    pub open spec fn height(&self) -> nat {
        self.entries().len()
    }

    /// Every row holds exactly `width()` entries.
    pub open spec fn wf(&self) -> bool {
        forall|i: int| 0 <= i < self.height() ==> #[trigger] self.entries()[i].len() == self.width()
    }

    /// Builds a matrix of `ncols` columns from its rows; a row of another
    /// length is a shape mismatch.
    pub fn from_rows(rows: Vec<Vec<T>>, ncols: usize) -> (r: Result<Matrix<T>, RegressionError>)
        ensures
            r is Ok <==> forall|i: int| 0 <= i < rows@.len() ==> #[trigger] rows@[i]@.len() == ncols,
            r matches Ok(m) ==> m.wf() && m.width() == ncols && m.entries() == rows_view(rows@),
            r matches Err(e) ==> e == RegressionError::ShapeMismatch,
    {
        let mut i: usize = 0;
        while i < rows.len()
            invariant
                0 <= i <= rows@.len(),
                forall|j: int| 0 <= j < i ==> #[trigger] rows@[j]@.len() == ncols,
            decreases rows@.len() - i,
        {
            if rows[i].len() != ncols {
                return Err(RegressionError::ShapeMismatch);
            }
            i = i + 1;
        }
        Ok(Matrix { rows, ncols })
    }

    /// Wraps rows already known to hold `ncols` entries each.
    pub(crate) fn from_uniform_rows(rows: Vec<Vec<T>>, ncols: usize) -> (m: Matrix<T>)
        requires
            forall|i: int| 0 <= i < rows@.len() ==> #[trigger] rows@[i]@.len() == ncols,
        ensures
            m.wf(),
            m.width() == ncols,
            m.entries() == rows_view(rows@),
    {
        Matrix { rows, ncols }
    }

    /// The number of rows.
    pub fn nrows(&self) -> (r: usize)
        ensures
            r == self.height(),
    {
        self.rows.len()
    }

    /// The number of columns.
    pub fn ncols(&self) -> (r: usize)
        ensures
            r == self.width(),
    {
        self.ncols
    }

    /// The entry in row `i` and column `j`.
    pub fn get(&self, i: usize, j: usize) -> (r: &T)
        requires
            self.wf(),
            i < self.height(),
            j < self.width(),
        ensures
            *r == self.entries()[i as int][j as int],
    {
        assert(self.entries()[i as int] == self.rows@[i as int]@);
        &self.rows[i][j]
    }

    /// Row `i`.
    pub fn row(&self, i: usize) -> (r: &Vec<T>)
        requires
            i < self.height(),
        ensures
            r@ == self.entries()[i as int],
    {
        &self.rows[i]
    }

    /// Gives the rows up.
    pub fn into_rows(self) -> (r: Vec<Vec<T>>)
        ensures
            rows_view(r@) == self.entries(),
    {
        self.rows
    }
}

impl<T: Copy> Matrix<T> {
    /// A single-column matrix holding `values` from top to bottom.
    pub fn from_column(values: &Vec<T>) -> (m: Matrix<T>)
        ensures
            m.wf(),
            m.width() == 1,
            m.height() == values@.len(),
            forall|i: int| 0 <= i < values@.len() ==> #[trigger] m.entries()[i] == seq![values@[i]],
    {
        let mut rows: Vec<Vec<T>> = Vec::new();
        let mut i: usize = 0;
        while i < values.len()
            invariant
                0 <= i <= values@.len(),
                rows@.len() == i,
                forall|j: int| 0 <= j < i ==> (#[trigger] rows@[j])@ == seq![values@[j]],
            decreases values@.len() - i,
        {
            let mut row: Vec<T> = Vec::new();
            row.push(values[i]);
            rows.push(row);
            i = i + 1;
        }
        Matrix { rows, ncols: 1 }
    }

    /// Column `j`, from top to bottom.
    pub fn column(&self, j: usize) -> (r: Vec<T>)
        requires
            self.wf(),
            j < self.width(),
        ensures
            r@.len() == self.height(),
            forall|i: int| 0 <= i < self.height() ==> #[trigger] r@[i] == self.entries()[i][j as int],
    {
        let mut out: Vec<T> = Vec::new();
        let mut i: usize = 0;
        while i < self.rows.len()
            invariant
                self.wf(),
                j < self.width(),
                0 <= i <= self.height(),
                out@.len() == i,
                forall|k: int| 0 <= k < i ==> #[trigger] out@[k] == self.entries()[k][j as int],
            decreases self.height() - i,
        {
            assert(self.entries()[i as int] == self.rows@[i as int]@);
            out.push(self.rows[i][j]);
            i = i + 1;
        }
        out
    }

    /// A copy of rows `from..to`, with the same column count.
    pub fn row_range(&self, from: usize, to: usize) -> (r: Matrix<T>)
        requires
            self.wf(),
            from <= to <= self.height(),
        ensures
            r.wf(),
            r.width() == self.width(),
            r.entries() == self.entries().subrange(from as int, to as int),
    {
        let mut rows: Vec<Vec<T>> = Vec::new();
        let mut i: usize = from;
        while i < to
            invariant
                self.wf(),
                from <= i <= to <= self.height(),
                rows@.len() == i - from,
                forall|k: int| 0 <= k < i - from ==> (#[trigger] rows@[k])@ == self.entries()[from + k],
            decreases to - i,
        {
            rows.push(copy_row(&self.rows[i]));
            i = i + 1;
        }
        let r = Matrix { rows, ncols: self.ncols };
        assert(r.entries() =~= self.entries().subrange(from as int, to as int));
        r
    }
}

/// An element-by-element copy of `row`.
fn copy_row<T: Copy>(row: &Vec<T>) -> (r: Vec<T>)
    ensures
        r@ == row@,
{
    let mut out: Vec<T> = Vec::new();
    let mut j: usize = 0;
    while j < row.len()
        invariant
            0 <= j <= row@.len(),
            out@ == row@.subrange(0, j as int),
        decreases row@.len() - j,
    {
        out.push(row[j]);
        j = j + 1;
    }
    assert(out@ =~= row@);
    out
}

} // verus!
