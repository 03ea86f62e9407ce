use vstd::prelude::*;

pub mod math;

use crate::scalar::Scalar;
use crate::util::{cells_in_range, WeightSource};
use crate::vector::MathError;
use math::{
    columns_of, grid_view, is_grid, lemma_multiply_zero_matrix, lemma_sum_difference_cancel,
    lemma_transpose_involution, matrix_difference, matrix_product, matrix_sum, matrix_transpose,
    zero_grid, zero_row,
};

verus! {

broadcast use math::lemma_grid_view_push;

/// Error for a cell access outside a matrix's bounds. Distinct from
/// [`MathError`]: an out-of-bounds `get` or `set` is a caller's contract
/// violation, not an expected runtime condition.
#[derive(Debug, Clone, Copy, PartialEq, Eq)]
pub struct IndexError;

/// A dense two-dimensional array: `rows` rows of `columns` cells each, in
/// row-major order. The shape is fixed at construction; arithmetic consumes
/// operands by reference and returns a newly owned matrix.
pub struct Matrix<T> {
    pub rows: usize,
    pub columns: usize,
    pub data_container: Vec<Vec<T>>,
}

impl<T> View for Matrix<T> {
    type V = Seq<Seq<T>>;

    open spec fn view(&self) -> Seq<Seq<T>> {
        grid_view(self.data_container@)
    }
}

impl<T> Matrix<T> {
    /// The shape invariant: the grid holds exactly `rows` rows, every one of
    /// exactly `columns` cells. Constructors establish it and operations
    /// preserve it.
    pub open spec fn wf(self) -> bool {
        self@.len() == self.rows && is_grid(self@, self.columns as nat)
    }

    /// Read access to the raw grid of rows.
    pub fn data_container(&self) -> (r: &Vec<Vec<T>>)
        ensures
            r == &self.data_container,
    {
        &self.data_container
    }
}

impl<T: Copy> Matrix<T> {
    /// Wraps a flat vector as an `N x 1` column (when `is_vertical`) or a
    /// `1 x N` row. Never fails.
    pub fn from_1d_vec(source: &[T], is_vertical: bool) -> (m: Matrix<T>)
        ensures
            m.wf(),
            is_vertical ==> m.rows == source@.len() && m.columns == 1 && m@ == Seq::new(
                source@.len(),
                |i: int| seq![source@[i]],
            ),
            !is_vertical ==> m.rows == 1 && m.columns == source@.len() && m@ == seq![source@],
    {
        if is_vertical {
            let mut data_container: Vec<Vec<T>> = Vec::new();
            for i in 0..source.len()
                invariant
                    data_container@.len() == i,
                    forall|ii: int| 0 <= ii < i ==> grid_view(data_container@)[ii] == seq![
                        source@[ii],
                    ],
            {
                let mut cell_row: Vec<T> = Vec::new();
                cell_row.push(source[i]);
                assert(cell_row@ =~= seq![source@[i as int]]);
                data_container.push(cell_row);
            }
            let m = Matrix { rows: source.len(), columns: 1, data_container };
            assert(m@ =~~= Seq::new(source@.len(), |i: int| seq![source@[i]]));
            m
        } else {
            let mut row: Vec<T> = Vec::new();
            for i in 0..source.len()
                invariant
                    row@.len() == i,
                    forall|ii: int| 0 <= ii < i ==> row@[ii] == source@[ii],
            {
                row.push(source[i]);
            }
            assert(row@ =~= source@);
            let mut data_container: Vec<Vec<T>> = Vec::new();
            data_container.push(row);
            let m = Matrix { rows: 1, columns: source.len(), data_container };
            assert(m@ =~~= seq![source@]);
            m
        }
    }

    /// Wraps a grid of rows as a matrix. Fails when the grid is empty or its
    /// rows do not all have the length of the first one.
    pub fn from_2d_vec(source: &[Vec<T>]) -> (r: Result<Matrix<T>, MathError>)
        ensures
            r.is_ok() <==> (source@.len() > 0 && is_grid(
                grid_view(source@),
                grid_view(source@)[0].len(),
            )),
            r matches Ok(m) ==> m.wf() && m.rows == source@.len() && m.columns as nat == grid_view(
                source@,
            )[0].len() && m@ == grid_view(source@),
    {
        let ghost g = grid_view(source@);
        if source.len() == 0 {
            return Err(MathError);
        }
        let row_size: usize = source[0].len();
        assert(row_size == g[0].len());

        let mut data_container: Vec<Vec<T>> = Vec::new();
        for i in 0..source.len()
            invariant
                g == grid_view(source@),
                source@.len() > 0,
                row_size == g[0].len(),
                data_container@.len() == i,
                forall|ii: int| 0 <= ii < i ==> (#[trigger] g[ii]).len() == row_size,
                forall|ii: int| 0 <= ii < i ==> grid_view(data_container@)[ii] == g[ii],
        {
            assert(g[i as int] == source@[i as int]@);
            if source[i].len() != row_size {
                assert(!is_grid(g, g[0].len()));
                return Err(MathError);
            }
            let mut row: Vec<T> = Vec::new();
            let source_row_len: usize = source[i].len();
            for j in 0..source_row_len
                invariant
                    g == grid_view(source@),
                    i < source@.len(),
                    g[i as int] == source@[i as int]@,
                    source_row_len == g[i as int].len(),
                    row@.len() == j,
                    forall|jj: int| 0 <= jj < j ==> row@[jj] == g[i as int][jj],
            {
                row.push(source[i][j]);
            }
            assert(row@ =~= g[i as int]);
            data_container.push(row);
        }
        let m = Matrix { rows: source.len(), columns: row_size, data_container };
        assert(m@ =~~= g);
        Ok(m)
    }

    /// A matrix of the given shape whose every cell was drawn from the
    /// source, in row-major order: the initial weights of one layer.
    pub fn create_weighting_matrix<S: WeightSource<T>>(
        columns: usize,
        rows: usize,
        source: &mut S,
    ) -> (m: Matrix<T>)
        ensures
            m.wf(),
            m.rows == rows,
            m.columns == columns,
            cells_in_range(*old(source), m@),
            forall|v: T| #[trigger] final(source).in_range(v) <==> old(source).in_range(v),
    {
        let mut weighting_vec: Vec<Vec<T>> = Vec::new();

        for _number in 0..rows
            invariant
                weighting_vec@.len() == _number,
                forall|ii: int| 0 <= ii < _number ==> (#[trigger] grid_view(weighting_vec@)[ii]).len()
                    == columns,
                forall|ii: int, jj: int|
                    0 <= ii < _number && 0 <= jj < grid_view(weighting_vec@)[ii].len() ==> old(
                        source,
                    ).in_range(#[trigger] grid_view(weighting_vec@)[ii][jj]),
                forall|v: T| #[trigger] source.in_range(v) <==> old(source).in_range(v),
        {
            let ghost snapshot = weighting_vec@;
            let row = crate::util::create_weighting_row(columns as u64, source);
            weighting_vec.push(row);
            proof {
                assert forall|ii: int, jj: int|
                    0 <= ii < _number + 1 && 0 <= jj < grid_view(weighting_vec@)[ii].len() implies old(
                    source,
                ).in_range(#[trigger] grid_view(weighting_vec@)[ii][jj]) by {
                    assert(grid_view(weighting_vec@)[ii] == weighting_vec@[ii]@);
                    if ii < _number {
                        assert(weighting_vec@[ii] == snapshot[ii]);
                        assert(grid_view(snapshot)[ii] == snapshot[ii]@);
                    }
                }
            }
        }

        let m = Matrix { rows, columns, data_container: weighting_vec };
        assert(is_grid(m@, columns as nat));
        m
    }

    /// The transpose: a `columns x rows` matrix with `m[j][i] == self[i][j]`
    /// for all valid indices. Never fails.
    pub fn transpose(&self) -> (m: Matrix<T>)
        requires
            self.wf(),
        ensures
            m.wf(),
            m.rows == self.columns,
            m.columns == self.rows,
            m@ == matrix_transpose(self@, self.columns as nat),
    {
        let mut trans_vec: Vec<Vec<T>> = Vec::new();
        for j in 0..self.columns
            invariant
                self.wf(),
                trans_vec@.len() == j,
                forall|jj: int| 0 <= jj < j ==> grid_view(trans_vec@)[jj] == matrix_transpose(
                    self@,
                    self.columns as nat,
                )[jj],
        {
            let mut column: Vec<T> = Vec::new();
            for i in 0..self.rows
                invariant
                    self.wf(),
                    j < self.columns,
                    column@.len() == i,
                    forall|ii: int| 0 <= ii < i ==> column@[ii] == self@[ii][j as int],
            {
                assert(self@[i as int] == self.data_container@[i as int]@);
                assert(self@[i as int].len() == self.columns);
                column.push(self.data_container[i][j]);
            }
            assert(column@ =~= matrix_transpose(self@, self.columns as nat)[j as int]);
            trans_vec.push(column);
        }
        let m = Matrix { rows: self.columns, columns: self.rows, data_container: trans_vec };
        assert(m@ =~~= matrix_transpose(self@, self.columns as nat));
        m
    }

    /// Bounds-checked read of one cell.
    pub fn get(&self, row: usize, col: usize) -> (r: Result<T, IndexError>)
        requires
            self.wf(),
        ensures
            r.is_ok() <==> (row < self.rows && col < self.columns),
            r matches Ok(v) ==> v == self@[row as int][col as int],
    {
        if row < self.rows && col < self.columns {
            assert(self@[row as int] == self.data_container@[row as int]@);
            assert(self@[row as int].len() == self.columns);
            Ok(self.data_container[row][col])
        } else {
            Err(IndexError)
        }
    }

    /// Bounds-checked write of one cell; the rest of the matrix is kept.
    pub fn set(&mut self, row: usize, col: usize, value: T) -> (r: Result<(), IndexError>)
        requires
            old(self).wf(),
        ensures
            final(self).wf(),
            final(self).rows == old(self).rows,
            final(self).columns == old(self).columns,
            r.is_ok() <==> (row < old(self).rows && col < old(self).columns),
            r.is_ok() ==> final(self)@ == old(self)@.update(
                row as int,
                old(self)@[row as int].update(col as int, value),
            ),
            !r.is_ok() ==> *final(self) == *old(self),
    {
        if row < self.rows && col < self.columns {
            assert(self@[row as int] == self.data_container@[row as int]@);
            assert(self@[row as int].len() == self.columns);
            self.data_container[row][col] = value;
            assert(self@ =~~= old(self)@.update(
                row as int,
                old(self)@[row as int].update(col as int, value),
            ));
            assert(is_grid(self@, self.columns as nat));
            Ok(())
        } else {
            Err(IndexError)
        }
    }
}

impl<T: Scalar> Matrix<T> {
    /// A `rows x columns` matrix with every cell zero. Never fails.
    pub fn zero(rows: usize, columns: usize) -> (m: Matrix<T>)
        ensures
            m.wf(),
            m.rows == rows,
            m.columns == columns,
            m@ == zero_grid::<T>(rows as nat, columns as nat),
    {
        let mut data_container: Vec<Vec<T>> = Vec::new();

        for _row_count in 0..rows
            invariant
                data_container@.len() == _row_count,
                forall|ii: int| 0 <= ii < _row_count ==> grid_view(data_container@)[ii]
                    == zero_row::<T>(columns as nat),
        {
            data_container.push(math::create_zeroed_vector(columns));
        }

        let m = Matrix { rows, columns, data_container };
        assert(m@ =~~= zero_grid::<T>(rows as nat, columns as nat));
        m
    }

    /// The matrix product `self * right`: fails exactly when the inner
    /// dimensions differ; otherwise the result is `self.rows x right.columns`
    /// with each cell the dot product of the matching row and column.
    pub fn multiply(&self, right: &Matrix<T>) -> (result: Result<Matrix<T>, MathError>)
        requires
            self.wf(),
            right.wf(),
        ensures
            result.is_ok() <==> self.columns == right.rows,
            result matches Ok(m) ==> m.wf() && m.rows == self.rows && m.columns == right.columns
                && m@ == matrix_product(self@, right@, right.columns as nat),
    {
        if self.columns != right.rows {
            return Err(MathError);
        }
        if right.rows == 0 {
            let m = Matrix::zero(self.rows, right.columns);
            proof {
                assert forall|i: int, j: int|
                    0 <= i < self@.len() && 0 <= j < right.columns implies matrix_product(
                    self@,
                    right@,
                    right.columns as nat,
                )[i][j] == T::zero_spec() by {
                    assert(self@[i].len() == 0);
                }
                assert(m@ =~~= matrix_product(self@, right@, right.columns as nat));
            }
            return Ok(m);
        }
        assert(columns_of(right@) == right.columns);
        match math::multiply_matrices(&self.data_container, &right.data_container) {
            Ok(val) => {
                let m = Matrix { rows: self.rows, columns: right.columns, data_container: val };
                assert(m@ =~~= matrix_product(self@, right@, right.columns as nat));
                Ok(m)
            },
            Err(e) => Err(e),
        }
    }

    /// The element-wise sum `self + right`: fails exactly when the shapes
    /// differ in either dimension.
    pub fn add(&self, right: &Matrix<T>) -> (result: Result<Matrix<T>, MathError>)
        requires
            self.wf(),
            right.wf(),
        ensures
            result.is_ok() <==> (self.rows == right.rows && self.columns == right.columns),
            result matches Ok(m) ==> m.wf() && m.rows == right.rows && m.columns == right.columns
                && m@ == matrix_sum(self@, right@),
    {
        if self.rows != right.rows || self.columns != right.columns {
            return Err(MathError);
        }
        match math::sum_matrices(&self.data_container, &right.data_container) {
            Ok(result) => {
                let m = Matrix { rows: right.rows, columns: right.columns, data_container: result };
                assert(m@ =~~= matrix_sum(self@, right@));
                Ok(m)
            },
            Err(e) => Err(e),
        }
    }

    /// The element-wise difference `self - right`: fails exactly when the
    /// shapes differ in either dimension.
    pub fn subtract(&self, right: &Matrix<T>) -> (result: Result<Matrix<T>, MathError>)
        requires
            self.wf(),
            right.wf(),
        ensures
            result.is_ok() <==> (self.rows == right.rows && self.columns == right.columns),
            result matches Ok(m) ==> m.wf() && m.rows == self.rows && m.columns == self.columns
                && m@ == math::matrix_difference(self@, right@),
    {
        crate::math::subtract_matrices(self, right)
    }
}

/// Transposing a well-formed matrix twice gives back its cells: applied to
/// what [`Matrix::transpose`] ensures, `a.transpose().transpose()` equals `a`
/// element-wise.
pub proof fn lemma_matrix_double_transpose<T>(a: Matrix<T>)
    requires
        a.wf(),
    ensures
        matrix_transpose(matrix_transpose(a@, a.columns as nat), a.rows as nat) == a@,
{
    lemma_transpose_involution(a@, a.columns as nat);
}

/// Adding a matrix of equal shape and subtracting it again restores every
/// cell, whenever the scalar's subtraction exactly inverts its addition:
/// applied to what [`Matrix::add`] and [`Matrix::subtract`] ensure,
/// `a.add(b)` then `.subtract(b)` equals `a` element-wise.
pub proof fn lemma_matrix_add_subtract_cancel<T: Scalar>(a: Matrix<T>, b: Matrix<T>)
    requires
        a.wf(),
        b.wf(),
        a.rows == b.rows,
        a.columns == b.columns,
        forall|x: T, y: T| #[trigger] x.add_spec(y).sub_spec(y) == x,
    ensures
        matrix_difference(matrix_sum(a@, b@), b@) == a@,
{
    lemma_sum_difference_cancel(a@, b@);
}

/// Multiplying a well-formed matrix by a fitting zero matrix yields the zero
/// matrix of the product's shape: applied to what [`Matrix::multiply`] and
/// [`Matrix::zero`] ensure, `a.multiply(zero)` is a zero matrix, under the
/// two scalar zero laws.
pub proof fn lemma_matrix_multiply_zero<T: Scalar>(a: Matrix<T>, result_columns: nat)
    requires
        a.wf(),
        forall|x: T| #[trigger] x.mul_spec(T::zero_spec()) == T::zero_spec(),
        T::zero_spec().add_spec(T::zero_spec()) == T::zero_spec(),
    ensures
        matrix_product(a@, zero_grid::<T>(a.columns as nat, result_columns), result_columns)
            == zero_grid::<T>(a.rows as nat, result_columns),
{
    lemma_multiply_zero_matrix(a@, a.columns as nat, result_columns);
}

} // verus!
