//! Dense matrices over an arbitrary scalar, stored column by column.
//!
//! The scalar type is never inspected: entries are only moved and copied.

use vstd::prelude::*;
use crate::error::ProjectionError;

verus! {

/// The mathematical content of a [`Matrix`]: its number of rows and the
/// sequence of its columns.
///
/// The row count is kept beside the columns so that a matrix without columns
/// still has a shape.
pub struct MatrixView<T> {
    pub rows: nat,
    pub columns: Seq<Seq<T>>,
}

impl<T> MatrixView<T> {
    /// Every column has exactly `rows` entries.
    pub open spec fn wf(self) -> bool {
        forall|j: int| 0 <= j < self.columns.len() ==> (#[trigger] self.columns[j]).len() == self.rows
    }

    pub open spec fn cols(self) -> nat {
        self.columns.len()
    }

    /// The entry in row `i` of column `j`.
    pub open spec fn at(self, i: int, j: int) -> T {
        self.columns[j][i]
    }

    /// Well formed, with `rows` rows and `cols` columns.
    pub open spec fn has_shape(self, rows: nat, cols: nat) -> bool {
        self.wf() && self.rows == rows && self.cols() == cols
    }

    pub open spec fn same_shape(self, other: MatrixView<T>) -> bool {
        self.rows == other.rows && self.cols() == other.cols()
    }

    /// The `rows` by `cols` matrix whose first `count` columns are the first
    /// `count` of `columns` and whose every other entry is `fill`.
    pub open spec fn with_leading_columns(
        rows: nat,
        cols: nat,
        columns: Seq<Seq<T>>,
        count: nat,
        fill: T,
    ) -> MatrixView<T> {
        MatrixView {
            rows,
            columns: Seq::new(
                cols,
                |j: int|
                    if j < count {
                        columns[j]
                    } else {
                        Seq::new(rows, |i: int| fill)
                    },
            ),
        }
    }

    /// The `rows` by `cols` matrix whose every entry is `value`.
    pub open spec fn filled(rows: nat, cols: nat, value: T) -> MatrixView<T> {
        MatrixView { rows, columns: Seq::new(cols, |j: int| Seq::new(rows, |i: int| value)) }
    }

    /// Column `j` alone, as a matrix of one column.
    pub open spec fn single(self, j: int) -> MatrixView<T> {
        MatrixView { rows: self.rows, columns: seq![self.columns[j]] }
    }

    /// Rows and columns exchanged.
    pub open spec fn transposed(self) -> MatrixView<T> {
        MatrixView {
            rows: self.cols(),
            columns: Seq::new(self.rows, |i: int| Seq::new(self.cols(), |j: int| self.at(i, j))),
        }
    }

    /// The matrix whose columns lie one after the other in `entries`.
    pub open spec fn from_column_major(rows: nat, cols: nat, entries: Seq<T>) -> MatrixView<T> {
        MatrixView {
            rows,
            columns: Seq::new(
                cols,
                |j: int| Seq::new(rows, |i: int| entries[column_major_index(rows, i, j)]),
            ),
        }
    }
}

/// The family of vectors held by `vectors`.
pub open spec fn family<T>(vectors: Vec<Vec<T>>) -> Seq<Seq<T>> {
    Seq::new(vectors@.len(), |i: int| vectors@[i]@)
}

/// The first `count` of `columns` exist, are at most `cols` in number, and
/// have `rows` entries each.
pub open spec fn leading_columns_fit<T>(rows: nat, cols: nat, columns: Seq<Seq<T>>, count: nat)
    -> bool {
    &&& count <= cols
    &&& count <= columns.len()
    &&& forall|j: int| 0 <= j < count ==> (#[trigger] columns[j]).len() == rows
}

/// A dense matrix with `nrows() * ncols()` entries.
#[derive(Debug, PartialEq)]
pub struct Matrix<T> {
    rows: usize,
    cols: usize,
    /// Column-major: column `j` occupies `data[j * rows .. (j + 1) * rows]`.
    data: Vec<T>,
}

/// Where entry `(i, j)` of a matrix with `rows` rows lies when its columns
/// are stored one after the other.
pub open spec fn column_major_index(rows: nat, i: int, j: int) -> int {
    j * rows + i
}

/// Column `j` of a column-major matrix with `rows` rows starts at
/// `j * rows` and lies inside the `rows * cols` entries.
proof fn lemma_column_major_bounds(rows: nat, cols: nat, j: int)
    requires
        0 <= j < cols,
    ensures
        0 <= j * rows,
        j * rows + rows <= rows * cols,
        j * rows + rows <= cols * rows,
        j * rows + rows == (j + 1) * rows,
{
    assert(0 <= j * rows) by (nonlinear_arith)
        requires 0 <= j, 0 <= rows;
    assert(j * rows + rows == (j + 1) * rows) by (nonlinear_arith);
    assert((j + 1) * rows <= cols * rows) by (nonlinear_arith)
        requires j + 1 <= cols, 0 <= rows;
    assert(cols * rows == rows * cols) by (nonlinear_arith);
}

impl<T> View for Matrix<T> {
    type V = MatrixView<T>;

    closed spec fn view(&self) -> MatrixView<T> {
        MatrixView::from_column_major(self.rows as nat, self.cols as nat, self.data@)
    }
}

impl<T> Matrix<T> {
    #[verifier::type_invariant]
    spec fn inv(self) -> bool {
        self.data.len() == self.rows * self.cols
    }
}

impl<T: Copy> Clone for Matrix<T> {
    fn clone(&self) -> (r: Self)
        ensures
            r@ == self@,
    {
        proof {
            use_type_invariant(self);
        }
        let mut data: Vec<T> = Vec::new();
        let mut k: usize = 0;
        while k < self.data.len()
            invariant
                k <= self.data@.len(),
                data@ =~= self.data@.subrange(0, k as int),
            decreases self.data@.len() - k,
        {
            data.push(self.data[k]);
            k += 1;
        }
        assert(data@ =~= self.data@);
        Matrix { rows: self.rows, cols: self.cols, data }
    }
}

impl<T: Copy> Matrix<T> {
    /// Builds a matrix from its entries listed column by column.
    ///
    /// Fails with `ShapeMismatch` exactly when `data` does not hold
    /// `nrows * ncols` entries.
    pub fn from_column_major(nrows: usize, ncols: usize, data: Vec<T>) -> (r: Result<
        Matrix<T>,
        ProjectionError,
    >)
        ensures
            data@.len() == nrows * ncols ==> r.is_ok() && r.unwrap()@
                == MatrixView::from_column_major(nrows as nat, ncols as nat, data@),
            data@.len() != nrows * ncols ==> r == Err::<Matrix<T>, ProjectionError>(
                ProjectionError::ShapeMismatch,
            ),
    {
        assert(data.len() == data@.len());
        match nrows.checked_mul(ncols) {
            Some(len) => {
                if data.len() == len {
                    Ok(Matrix { rows: nrows, cols: ncols, data })
                } else {
                    Err(ProjectionError::ShapeMismatch)
                }
            },
            None => Err(ProjectionError::ShapeMismatch),
        }
    }

    /// The `nrows` by `ncols` matrix that begins with the first `count` of
    /// `columns` and holds `fill` everywhere else.
    ///
    /// Fails with `ShapeMismatch` exactly when those columns do not fit.
    pub fn from_leading_columns(
        nrows: usize,
        ncols: usize,
        columns: &Vec<Vec<T>>,
        count: usize,
        fill: T,
    ) -> (r: Result<Matrix<T>, ProjectionError>)
        ensures
            leading_columns_fit(nrows as nat, ncols as nat, family(*columns), count as nat)
                ==> r.is_ok() && r.unwrap()@ == MatrixView::with_leading_columns(
                nrows as nat,
                ncols as nat,
                family(*columns),
                count as nat,
                fill,
            ),
            !leading_columns_fit(nrows as nat, ncols as nat, family(*columns), count as nat)
                ==> r == Err::<Matrix<T>, ProjectionError>(ProjectionError::ShapeMismatch),
    {
        if count > ncols || count > columns.len() {
            return Err(ProjectionError::ShapeMismatch);
        }
        let mut checked: usize = 0;
        while checked < count
            invariant
                checked <= count <= columns@.len(),
                forall|j: int| 0 <= j < checked ==> (#[trigger] family(*columns)[j]).len() == nrows,
            decreases count - checked,
        {
            if columns[checked].len() != nrows {
                assert(family(*columns)[checked as int].len() != nrows);
                return Err(ProjectionError::ShapeMismatch);
            }
            checked += 1;
        }
        let ghost want = MatrixView::with_leading_columns(
            nrows as nat,
            ncols as nat,
            family(*columns),
            count as nat,
            fill,
        );
        let mut data: Vec<T> = Vec::new();
        let mut j: usize = 0;
        while j < ncols
            invariant
                j <= ncols,
                count <= ncols,
                leading_columns_fit(nrows as nat, ncols as nat, family(*columns), count as nat),
                want == MatrixView::with_leading_columns(
                    nrows as nat,
                    ncols as nat,
                    family(*columns),
                    count as nat,
                    fill,
                ),
                data.len() == j * nrows,
                forall|a: int, b: int|
                    0 <= a < j && 0 <= b < nrows ==> #[trigger] data@[column_major_index(
                        nrows as nat,
                        b,
                        a,
                    )] == want.columns[a][b],
            decreases ncols - j,
        {
            let mut i: usize = 0;
            while i < nrows
                invariant
                    j < ncols,
                    i <= nrows,
                    count <= ncols,
                    leading_columns_fit(nrows as nat, ncols as nat, family(*columns), count as nat),
                    want == MatrixView::with_leading_columns(
                        nrows as nat,
                        ncols as nat,
                        family(*columns),
                        count as nat,
                        fill,
                    ),
                    data.len() == j * nrows + i,
                    forall|a: int, b: int|
                        0 <= a < j && 0 <= b < nrows ==> #[trigger] data@[column_major_index(
                            nrows as nat,
                            b,
                            a,
                        )] == want.columns[a][b],
                    forall|b: int|
                        0 <= b < i ==> #[trigger] data@[column_major_index(nrows as nat, b, j as int)]
                            == want.columns[j as int][b],
                decreases nrows - i,
            {
                let ghost before = data@;
                let entry = if j < count {
                    assert(family(*columns)[j as int].len() == nrows);
                    columns[j][i]
                } else {
                    fill
                };
                data.push(entry);
                proof {
                    assert forall|a: int, b: int| 0 <= a < j && 0 <= b < nrows implies
                        #[trigger] data@[column_major_index(nrows as nat, b, a)]
                        == want.columns[a][b] by {
                        lemma_column_major_bounds(nrows as nat, j as nat, a);
                        assert(data@[column_major_index(nrows as nat, b, a)]
                            == before[column_major_index(nrows as nat, b, a)]);
                    }
                }
                i += 1;
            }
            proof {
                lemma_column_major_bounds(nrows as nat, ncols as nat, j as int);
            }
            j += 1;
        }
        assert(data.len() == nrows * ncols) by (nonlinear_arith)
            requires data.len() == j * nrows, j == ncols;
        let r = Matrix { rows: nrows, cols: ncols, data };
        proof {
            assert forall|c: int| 0 <= c < ncols implies #[trigger] r@.columns[c]
                =~= want.columns[c] by {
                assert forall|k: int| 0 <= k < nrows implies r@.columns[c][k]
                    == want.columns[c][k] by {
                    assert(r.data@[column_major_index(nrows as nat, k, c)] == want.columns[c][k]);
                }
            }
            assert(r@.columns =~= want.columns);
        }
        Ok(r)
    }

    /// The entries, column by column.
    pub fn as_column_major(&self) -> (r: &Vec<T>)
        ensures
            r@.len() == self@.rows * self@.cols(),
            MatrixView::from_column_major(self@.rows, self@.cols(), r@) == self@,
    {
        proof {
            use_type_invariant(self);
        }
        &self.data
    }

    /// The entry in row `i` of column `j`, if there is one.
    pub fn get(&self, i: usize, j: usize) -> (r: Option<T>)
        ensures
            r == if i < self@.rows && j < self@.cols() {
                Some(self@.at(i as int, j as int))
            } else {
                None
            },
    {
        proof {
            use_type_invariant(self);
        }
        if i < self.rows && j < self.cols {
            proof {
                lemma_column_major_bounds(self.rows as nat, self.cols as nat, j as int);
            }
            Some(self.data[j * self.rows + i])
        } else {
            None
        }
    }

    /// The matrix with rows and columns exchanged.
    pub fn transpose(&self) -> (r: Matrix<T>)
        ensures
            r@ == self@.transposed(),
    {
        proof {
            use_type_invariant(self);
        }
        let mut data: Vec<T> = Vec::new();
        let mut i: usize = 0;
        while i < self.rows
            invariant
                i <= self.rows,
                self.data.len() == self.rows * self.cols,
                data@.len() == i * self.cols,
                forall|a: int, b: int|
                    0 <= a < i && 0 <= b < self.cols ==> #[trigger] data@[column_major_index(
                        self.cols as nat,
                        b,
                        a,
                    )] == self.data@[column_major_index(self.rows as nat, a, b)],
            decreases self.rows - i,
        {
            let mut j: usize = 0;
            while j < self.cols
                invariant
                    i < self.rows,
                    j <= self.cols,
                    self.data.len() == self.rows * self.cols,
                    data@.len() == i * self.cols + j,
                    forall|a: int, b: int|
                        0 <= a < i && 0 <= b < self.cols ==> #[trigger] data@[column_major_index(
                            self.cols as nat,
                            b,
                            a,
                        )] == self.data@[column_major_index(self.rows as nat, a, b)],
                    forall|b: int|
                        0 <= b < j ==> #[trigger] data@[column_major_index(
                            self.cols as nat,
                            b,
                            i as int,
                        )] == self.data@[column_major_index(self.rows as nat, i as int, b)],
                decreases self.cols - j,
            {
                proof {
                    lemma_column_major_bounds(self.rows as nat, self.cols as nat, j as int);
                }
                let ghost before = data@;
                data.push(self.data[j * self.rows + i]);
                proof {
                    assert forall|a: int, b: int| 0 <= a < i && 0 <= b < self.cols implies
                        #[trigger] data@[column_major_index(self.cols as nat, b, a)]
                        == self.data@[column_major_index(self.rows as nat, a, b)] by {
                        lemma_column_major_bounds(self.cols as nat, i as nat, a);
                        assert(data@[column_major_index(self.cols as nat, b, a)]
                            == before[column_major_index(self.cols as nat, b, a)]);
                    }
                }
                j += 1;
            }
            proof {
                lemma_column_major_bounds(self.cols as nat, self.rows as nat, i as int);
            }
            i += 1;
        }
        assert(data@.len() == self.cols * self.rows) by (nonlinear_arith)
            requires data@.len() == i * self.cols, i == self.rows;
        let r = Matrix { rows: self.cols, cols: self.rows, data };
        proof {
            let want = self@.transposed();
            assert forall|c: int| 0 <= c < self.rows implies #[trigger] r@.columns[c]
                =~= want.columns[c] by {
                assert forall|k: int| 0 <= k < self.cols implies r@.columns[c][k]
                    == want.columns[c][k] by {
                    assert(r.data@[column_major_index(self.cols as nat, k, c)]
                        == self.data@[column_major_index(self.rows as nat, c, k)]);
                }
            }
            assert(r@.columns =~= want.columns);
        }
        r
    }

    /// Number of rows.
    pub fn nrows(&self) -> (r: usize)
        ensures
            r == self@.rows,
            self@.wf(),
    {
        self.rows
    }

    /// Number of columns.
    pub fn ncols(&self) -> (r: usize)
        ensures
            r == self@.cols(),
            self@.wf(),
    {
        self.cols
    }
}

} // verus!
