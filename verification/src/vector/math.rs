use vstd::prelude::*;

use crate::matrix::math::{
    columns_of, grid_view, is_grid, matrix_product, matrix_transpose, multiply_matrices,
    transpose_matrix,
};
use crate::scalar::Scalar;
use crate::vector::MathError;

verus! {

/// Multiplies two rectangular grids of rows; the historical entry point kept
/// beside [`multiply_matrices`], with the same behaviour.
pub fn multiply_vectors<T: Scalar>(first_vec: &Vec<Vec<T>>, second_vec: &Vec<Vec<T>>) -> (product:
    Result<Vec<Vec<T>>, MathError>)
    requires
        is_grid(grid_view(first_vec@), columns_of(grid_view(first_vec@))),
        is_grid(grid_view(second_vec@), columns_of(grid_view(second_vec@))),
    ensures
        product.is_ok() <==> (first_vec@.len() == 0 || columns_of(grid_view(first_vec@))
            == second_vec@.len()),
        product matches Ok(p) ==> grid_view(p@) == matrix_product(
            grid_view(first_vec@),
            grid_view(second_vec@),
            columns_of(grid_view(second_vec@)),
        ),
{
    multiply_matrices(first_vec.as_slice(), second_vec.as_slice())
}

/// Transposes a rectangular grid of rows; the historical entry point kept
/// beside [`transpose_matrix`], with the same behaviour.
pub fn transpose_vec<T: Copy>(target: &Vec<Vec<T>>) -> (r: Vec<Vec<T>>)
    requires
        is_grid(grid_view(target@), columns_of(grid_view(target@))),
    ensures
        grid_view(r@) == matrix_transpose(grid_view(target@), columns_of(grid_view(target@))),
{
    transpose_matrix(target.as_slice())
}

} // verus!
