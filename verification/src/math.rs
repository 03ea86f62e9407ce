use vstd::prelude::*;

use crate::matrix::math::{grid_view, is_grid, matrix_difference, matrix_sum};
use crate::matrix::Matrix;
use crate::scalar::Scalar;
use crate::vector::MathError;

verus! {

broadcast use crate::matrix::math::lemma_grid_view_push;

/// The element-wise difference `minuend - subtrahend`: fails exactly when
/// the shapes differ in either dimension.
pub fn subtract_matrices<T: Scalar>(minuend: &Matrix<T>, subtrahend: &Matrix<T>) -> (result: Result<
    Matrix<T>,
    MathError,
>)
    requires
        minuend.wf(),
        subtrahend.wf(),
    ensures
        result.is_ok() <==> (minuend.rows == subtrahend.rows && minuend.columns
            == subtrahend.columns),
        result matches Ok(d) ==> d.wf() && d.rows == minuend.rows && d.columns == minuend.columns
            && d@ == matrix_difference(minuend@, subtrahend@),
{
    if minuend.columns != subtrahend.columns || minuend.rows != subtrahend.rows {
        return Err(MathError);
    }

    let mut difference: Vec<Vec<T>> = Vec::new();
    for x in 0..minuend.rows
        invariant
            minuend.wf(),
            subtrahend.wf(),
            minuend.rows == subtrahend.rows,
            minuend.columns == subtrahend.columns,
            difference@.len() == x,
            forall|ii: int| 0 <= ii < x ==> grid_view(difference@)[ii] == matrix_difference(
                minuend@,
                subtrahend@,
            )[ii],
    {
        assert(minuend@[x as int] == minuend.data_container@[x as int]@);
        assert(subtrahend@[x as int] == subtrahend.data_container@[x as int]@);
        let mut row: Vec<T> = Vec::new();
        for y in 0..minuend.columns
            invariant
                minuend.wf(),
                subtrahend.wf(),
                minuend.rows == subtrahend.rows,
                minuend.columns == subtrahend.columns,
                x < minuend@.len(),
                row@.len() == y,
                forall|jj: int| 0 <= jj < y ==> row@[jj] == minuend@[x as int][jj].sub_spec(
                    subtrahend@[x as int][jj],
                ),
        {
            assert(minuend@[x as int] == minuend.data_container@[x as int]@);
            assert(subtrahend@[x as int] == subtrahend.data_container@[x as int]@);
            assert(minuend@[x as int].len() == minuend.columns);
            assert(subtrahend@[x as int].len() == subtrahend.columns);
            row.push(minuend.data_container[x][y].sub_val(subtrahend.data_container[x][y]));
        }
        assert(row@ =~= matrix_difference(minuend@, subtrahend@)[x as int]);
        difference.push(row);
    }

    let d = Matrix { rows: minuend.rows, columns: minuend.columns, data_container: difference };
    assert(d@ =~~= matrix_difference(minuend@, subtrahend@));
    Ok(d)
}

/// The element-wise sum `first + second`: fails exactly when the shapes
/// differ in either dimension.
pub fn sum_matrices<T: Scalar>(first: &Matrix<T>, second: &Matrix<T>) -> (result: Result<
    Matrix<T>,
    MathError,
>)
    requires
        first.wf(),
        second.wf(),
    ensures
        result.is_ok() <==> (first.rows == second.rows && first.columns == second.columns),
        result matches Ok(s) ==> s.wf() && s.rows == first.rows && s.columns == first.columns
            && s@ == matrix_sum(first@, second@),
{
    first.add(second)
}

} // verus!
