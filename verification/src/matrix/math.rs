use vstd::prelude::*;

use crate::scalar::Scalar;
use crate::vector::MathError;

verus! {

/// The mathematical content of a `Vec<Vec<T>>`: the sequence of its rows,
/// each row a sequence of cells.
pub open spec fn grid_view<T>(s: Seq<Vec<T>>) -> Seq<Seq<T>> {
    s.map_values(|v: Vec<T>| v@)
}

/// The column count a grid presents: that of its first row, or zero when it
/// has no rows.
pub open spec fn columns_of<T>(m: Seq<Seq<T>>) -> nat {
    if m.len() == 0 {
        0
    } else {
        m[0].len()
    }
}

/// Every row has exactly `columns` cells.
pub open spec fn is_grid<T>(m: Seq<Seq<T>>, columns: nat) -> bool {
    forall|i: int| 0 <= i < m.len() ==> (#[trigger] m[i]).len() == columns
}

/// Column `j` of a grid, read top to bottom.
pub open spec fn column_seq<T>(m: Seq<Seq<T>>, j: int) -> Seq<T> {
    Seq::new(m.len(), |i: int| m[i][j])
}

/// The dot product of two equally long vectors, summed left to right and
/// started at zero, exactly as the executable loops compute it.
pub open spec fn dot_product<T: Scalar>(a: Seq<T>, b: Seq<T>) -> T
    decreases a.len(),
{
    if a.len() == 0 {
        T::zero_spec()
    } else {
        dot_product(a.drop_last(), b.drop_last()).add_spec(a.last().mul_spec(b.last()))
    }
}

/// The standard matrix product of `a` and `b`, with `result_columns` columns:
/// cell `(i, j)` is the dot product of row `i` of `a` and column `j` of `b`.
pub open spec fn matrix_product<T: Scalar>(
    a: Seq<Seq<T>>,
    b: Seq<Seq<T>>,
    result_columns: nat,
) -> Seq<Seq<T>> {
    Seq::new(a.len(), |i: int| Seq::new(result_columns, |j: int| dot_product(a[i], column_seq(b, j))))
}

/// The element-wise sum of two equally shaped grids.
pub open spec fn matrix_sum<T: Scalar>(a: Seq<Seq<T>>, b: Seq<Seq<T>>) -> Seq<Seq<T>> {
    Seq::new(a.len(), |i: int| Seq::new(a[i].len(), |j: int| a[i][j].add_spec(b[i][j])))
}

/// The element-wise difference of two equally shaped grids.
pub open spec fn matrix_difference<T: Scalar>(a: Seq<Seq<T>>, b: Seq<Seq<T>>) -> Seq<Seq<T>> {
    Seq::new(a.len(), |i: int| Seq::new(a[i].len(), |j: int| a[i][j].sub_spec(b[i][j])))
}

/// The transpose of a grid with the given column count: row `j` of the result
/// is column `j` of `m`.
pub open spec fn matrix_transpose<T>(m: Seq<Seq<T>>, columns: nat) -> Seq<Seq<T>> {
    Seq::new(columns, |j: int| column_seq(m, j))
}

/// The element-wise difference of two vectors, truncated to the shorter one.
pub open spec fn vector_difference<T: Scalar>(a: Seq<T>, b: Seq<T>) -> Seq<T> {
    Seq::new(
        if a.len() <= b.len() {
            a.len()
        } else {
            b.len()
        },
        |i: int| a[i].sub_spec(b[i]),
    )
}

/// A row of `columns` zeroes.
pub open spec fn zero_row<T: Scalar>(columns: nat) -> Seq<T> {
    Seq::new(columns, |j: int| T::zero_spec())
}

/// A `rows` by `columns` grid of zeroes.
pub open spec fn zero_grid<T: Scalar>(rows: nat, columns: nat) -> Seq<Seq<T>> {
    Seq::new(rows, |i: int| zero_row(columns))
}

/// The square grid whose diagonal carries the first cell of each row of `g`
/// and whose remaining cells are zero.
pub open spec fn diagonal_of<T: Scalar>(g: Seq<Seq<T>>) -> Seq<Seq<T>> {
    Seq::new(
        g.len(),
        |i: int|
            Seq::new(
                g.len(),
                |j: int|
                    if i == j {
                        g[i][0]
                    } else {
                        T::zero_spec()
                    },
            ),
    )
}

/// Appending a row to a grid of rows appends its view to the grid's view.
pub broadcast proof fn lemma_grid_view_push<T>(s: Seq<Vec<T>>, v: Vec<T>)
    ensures
        #[trigger] grid_view(s.push(v)) == grid_view(s).push(v@),
{
    assert forall|i: int| 0 <= i < grid_view(s.push(v)).len() implies grid_view(s.push(v))[i]
        == grid_view(s).push(v@)[i] by {
        if i < s.len() {
            assert(s.push(v)[i] == s[i]);
        } else {
            assert(s.push(v)[i] == v);
        }
    }
    assert(grid_view(s.push(v)) =~= grid_view(s).push(v@));
}

/// Extending both vectors by one element extends their dot product by the
/// product of the new cells.
pub proof fn lemma_dot_product_step<T: Scalar>(a: Seq<T>, b: Seq<T>, k: int)
    requires
        0 <= k < a.len(),
        k < b.len(),
    ensures
        dot_product(a.take(k + 1), b.take(k + 1)) == dot_product(a.take(k), b.take(k)).add_spec(
            a[k].mul_spec(b[k]),
        ),
{
    assert(a.take(k + 1).drop_last() =~= a.take(k));
    assert(b.take(k + 1).drop_last() =~= b.take(k));
    assert(a.take(k + 1).last() == a[k]);
    assert(b.take(k + 1).last() == b[k]);
}

/// Transposing twice gives the original grid back: for every rectangular
/// grid `m` with the given column count, every cell of the double transpose
/// equals the original cell.
pub proof fn lemma_transpose_involution<T>(m: Seq<Seq<T>>, columns: nat)
    requires
        is_grid(m, columns),
    ensures
        matrix_transpose(matrix_transpose(m, columns), m.len()) == m,
{
    let t = matrix_transpose(m, columns);
    let tt = matrix_transpose(t, m.len());
    assert forall|i: int| 0 <= i < m.len() implies tt[i] == m[i] by {
        assert(tt[i] == column_seq(t, i));
        assert forall|j: int| 0 <= j < columns implies column_seq(t, i)[j] == m[i][j] by {
            assert(t[j] == column_seq(m, j));
        }
        assert(column_seq(t, i) =~= m[i]);
    }
    assert(tt =~~= m);
}

/// Adding a grid and then subtracting it again gives the original grid back,
/// cell for cell, whenever the scalar's subtraction exactly inverts its
/// addition. The integer scalars satisfy that premise for every value;
/// floating-point scalars satisfy it only within rounding, which is why it
/// stands as a premise here.
pub proof fn lemma_sum_difference_cancel<T: Scalar>(a: Seq<Seq<T>>, b: Seq<Seq<T>>)
    requires
        a.len() == b.len(),
        forall|i: int| 0 <= i < a.len() ==> (#[trigger] a[i]).len() == b[i].len(),
        forall|x: T, y: T| #[trigger] x.add_spec(y).sub_spec(y) == x,
    ensures
        matrix_difference(matrix_sum(a, b), b) == a,
{
    let s = matrix_sum(a, b);
    let d = matrix_difference(s, b);
    assert forall|i: int| 0 <= i < a.len() implies d[i] == a[i] by {
        assert forall|j: int| 0 <= j < a[i].len() implies d[i][j] == a[i][j] by {
            assert(s[i][j] == a[i][j].add_spec(b[i][j]));
        }
        assert(d[i] =~= a[i]);
    }
    assert(d =~~= a);
}

/// The dot product of a row with an equally long row of zeroes is zero,
/// provided multiplying by zero yields zero and zero plus zero is zero.
pub proof fn lemma_dot_product_zero<T: Scalar>(row: Seq<T>)
    requires
        forall|x: T| #[trigger] x.mul_spec(T::zero_spec()) == T::zero_spec(),
        T::zero_spec().add_spec(T::zero_spec()) == T::zero_spec(),
    ensures
        dot_product(row, zero_row(row.len())) == T::zero_spec(),
    decreases row.len(),
{
    if row.len() > 0 {
        assert(zero_row::<T>(row.len()).drop_last() =~= zero_row::<T>((row.len() - 1) as nat));
        lemma_dot_product_zero(row.drop_last());
        assert(zero_row::<T>(row.len()).last() == T::zero_spec());
    }
}

/// Multiplying a rectangular grid by a fitting grid of zeroes yields the
/// zero grid of the product's shape, under the same two scalar premises.
pub proof fn lemma_multiply_zero_matrix<T: Scalar>(a: Seq<Seq<T>>, inner: nat, result_columns: nat)
    requires
        is_grid(a, inner),
        forall|x: T| #[trigger] x.mul_spec(T::zero_spec()) == T::zero_spec(),
        T::zero_spec().add_spec(T::zero_spec()) == T::zero_spec(),
    ensures
        matrix_product(a, zero_grid::<T>(inner, result_columns), result_columns) == zero_grid::<T>(
            a.len(),
            result_columns,
        ),
{
    let b = zero_grid::<T>(inner, result_columns);
    let p = matrix_product(a, b, result_columns);
    assert forall|i: int| 0 <= i < a.len() implies p[i] == zero_row::<T>(result_columns) by {
        assert forall|j: int| 0 <= j < result_columns implies p[i][j] == T::zero_spec() by {
            assert(column_seq(b, j) =~= zero_row::<T>(inner));
            assert(a[i].len() == inner);
            lemma_dot_product_zero(a[i]);
        }
        assert(p[i] =~= zero_row::<T>(result_columns));
    }
    assert(p =~~= zero_grid::<T>(a.len(), result_columns));
}

/// Multiplies two rectangular grids. Fails when the left grid has rows whose
/// length differs from the right grid's row count; a product with an empty
/// left grid is the empty grid.
pub fn multiply_matrices<T: Scalar>(left: &[Vec<T>], right: &[Vec<T>]) -> (product: Result<
    Vec<Vec<T>>,
    MathError,
>)
    requires
        is_grid(grid_view(left@), columns_of(grid_view(left@))),
        is_grid(grid_view(right@), columns_of(grid_view(right@))),
    ensures
        product.is_ok() <==> (left@.len() == 0 || columns_of(grid_view(left@)) == right@.len()),
        product matches Ok(p) ==> grid_view(p@) == matrix_product(
            grid_view(left@),
            grid_view(right@),
            columns_of(grid_view(right@)),
        ),
{
    let ghost gl = grid_view(left@);
    let ghost gr = grid_view(right@);

    if left.len() > 0 && left[0].len() != right.len() {
        return Err(MathError);
    }
    let result_columns: usize = if right.len() == 0 {
        0
    } else {
        right[0].len()
    };
    assert(result_columns == columns_of(gr));

    let mut product: Vec<Vec<T>> = Vec::new();
    for i in 0..left.len()
        invariant
            gl == grid_view(left@),
            gr == grid_view(right@),
            is_grid(gl, columns_of(gl)),
            is_grid(gr, columns_of(gr)),
            left@.len() > 0 ==> columns_of(gl) == right@.len(),
            result_columns == columns_of(gr),
            product@.len() == i,
            forall|ii: int| 0 <= ii < i ==> grid_view(product@)[ii] == matrix_product(
                gl,
                gr,
                columns_of(gr),
            )[ii],
    {
        let mut result_row: Vec<T> = Vec::new();
        for j in 0..result_columns
            invariant
                gl == grid_view(left@),
                gr == grid_view(right@),
                is_grid(gl, columns_of(gl)),
                is_grid(gr, columns_of(gr)),
                left@.len() > 0 ==> columns_of(gl) == right@.len(),
                result_columns == columns_of(gr),
                i < left@.len(),
                result_row@.len() == j,
                forall|jj: int| 0 <= jj < j ==> result_row@[jj] == dot_product(
                    gl[i as int],
                    column_seq(gr, jj),
                ),
        {
            let ghost row = gl[i as int];
            let ghost col = column_seq(gr, j as int);
            assert(row == left@[i as int]@);
            assert(row.len() == right@.len());
            assert(col.len() == right@.len());

            let mut cell = T::zero_val();
            for k in 0..right.len()
                invariant
                    gl == grid_view(left@),
                    gr == grid_view(right@),
                    is_grid(gr, columns_of(gr)),
                    row == gl[i as int],
                    row == left@[i as int]@,
                    col == column_seq(gr, j as int),
                    i < left@.len(),
                    j < columns_of(gr),
                    row.len() == right@.len(),
                    col.len() == right@.len(),
                    cell == dot_product(row.take(k as int), col.take(k as int)),
            {
                assert(gr[k as int] == right@[k as int]@);
                assert(gr[k as int].len() == columns_of(gr));
                assert(col[k as int] == gr[k as int][j as int]);
                let summand = left[i][k].mul_val(right[k][j]);
                proof {
                    lemma_dot_product_step(row, col, k as int);
                }
                cell = cell.add_val(summand);
            }
            assert(row.take(right@.len() as int) =~= row);
            assert(col.take(right@.len() as int) =~= col);
            result_row.push(cell);
        }
        assert(result_row@ =~= matrix_product(gl, gr, columns_of(gr))[i as int]);
        proof {
            lemma_grid_view_push(product@, result_row);
        }
        product.push(result_row);
    }
    assert(grid_view(product@) =~~= matrix_product(gl, gr, columns_of(gr)));
    Ok(product)
}

/// Adds two rectangular grids element-wise; fails when their shapes differ.
pub fn sum_matrices<T: Scalar>(left: &[Vec<T>], right: &[Vec<T>]) -> (result: Result<
    Vec<Vec<T>>,
    MathError,
>)
    requires
        is_grid(grid_view(left@), columns_of(grid_view(left@))),
        is_grid(grid_view(right@), columns_of(grid_view(right@))),
    ensures
        result.is_ok() <==> (left@.len() == right@.len() && columns_of(grid_view(left@))
            == columns_of(grid_view(right@))),
        result matches Ok(s) ==> grid_view(s@) == matrix_sum(grid_view(left@), grid_view(right@)),
{
    let ghost gl = grid_view(left@);
    let ghost gr = grid_view(right@);

    if left.len() != right.len() {
        return Err(MathError);
    }
    if left.len() > 0 && left[0].len() != right[0].len() {
        return Err(MathError);
    }

    let mut result: Vec<Vec<T>> = Vec::new();
    for x in 0..left.len()
        invariant
            gl == grid_view(left@),
            gr == grid_view(right@),
            is_grid(gl, columns_of(gl)),
            is_grid(gr, columns_of(gr)),
            left@.len() == right@.len(),
            columns_of(gl) == columns_of(gr),
            result@.len() == x,
            forall|ii: int| 0 <= ii < x ==> grid_view(result@)[ii] == matrix_sum(gl, gr)[ii],
    {
        assert(gl[x as int] == left@[x as int]@);
        assert(gr[x as int] == right@[x as int]@);
        let mut row: Vec<T> = Vec::new();
        let row_len: usize = left[x].len();
        for y in 0..row_len
            invariant
                gl == grid_view(left@),
                gr == grid_view(right@),
                is_grid(gl, columns_of(gl)),
                is_grid(gr, columns_of(gr)),
                left@.len() == right@.len(),
                columns_of(gl) == columns_of(gr),
                x < left@.len(),
                row_len == columns_of(gl),
                row@.len() == y,
                forall|jj: int| 0 <= jj < y ==> row@[jj] == gl[x as int][jj].add_spec(
                    gr[x as int][jj],
                ),
        {
            assert(gl[x as int] == left@[x as int]@);
            assert(gr[x as int] == right@[x as int]@);
            row.push(left[x][y].add_val(right[x][y]));
        }
        assert(row@ =~= matrix_sum(gl, gr)[x as int]);
        result.push(row);
    }
    assert(grid_view(result@) =~~= matrix_sum(gl, gr));
    Ok(result)
}

/// Spreads a column of values along the diagonal of a square grid of zeroes.
///
/// Example:    1       1   0   0
///             2   =>  0   2   0
///             3       0   0   3
///
/// Returns `None` when some row of the input has no first cell.
pub fn from_vector_to_matrix<T: Scalar>(target_vec: &[Vec<T>]) -> (r: Option<Vec<Vec<T>>>)
    ensures
        r.is_some() <==> (forall|i: int|
            0 <= i < target_vec@.len() ==> (#[trigger] grid_view(target_vec@)[i]).len() > 0),
        r matches Some(q) ==> grid_view(q@) == diagonal_of(grid_view(target_vec@)),
{
    let ghost g = grid_view(target_vec@);
    let mut quadratic_vec: Vec<Vec<T>> = Vec::new();

    for index in 0..target_vec.len()
        invariant
            g == grid_view(target_vec@),
            quadratic_vec@.len() == index,
            forall|ii: int| 0 <= ii < index ==> (#[trigger] g[ii]).len() > 0,
            forall|ii: int| 0 <= ii < index ==> grid_view(quadratic_vec@)[ii] == diagonal_of(g)[ii],
    {
        assert(g[index as int] == target_vec@[index as int]@);
        if target_vec[index].len() == 0 {
            assert(!(forall|i: int| 0 <= i < g.len() ==> (#[trigger] g[i]).len() > 0));
            return None;
        }
        let mut row: Vec<T> = create_zeroed_vector(target_vec.len());
        let value = target_vec[index][0];
        row[index] = value;
        assert(row@ =~= diagonal_of(g)[index as int]);
        quadratic_vec.push(row);
    }
    assert(grid_view(quadratic_vec@) =~~= diagonal_of(g));
    Some(quadratic_vec)
}

/// Transposes a rectangular grid of rows: cell `(i, j)` of the input becomes
/// cell `(j, i)` of the result.
pub fn transpose_matrix<T: Copy>(target: &[Vec<T>]) -> (r: Vec<Vec<T>>)
    requires
        is_grid(grid_view(target@), columns_of(grid_view(target@))),
    ensures
        grid_view(r@) == matrix_transpose(grid_view(target@), columns_of(grid_view(target@))),
{
    let ghost g = grid_view(target@);
    let columns: usize = if target.len() == 0 {
        0
    } else {
        target[0].len()
    };
    assert(columns == columns_of(g));

    let mut trans_vec: Vec<Vec<T>> = Vec::new();
    for j in 0..columns
        invariant
            columns == columns_of(g),
            is_grid(g, columns_of(g)),
            g == grid_view(target@),
            trans_vec@.len() == j,
            forall|jj: int| 0 <= jj < j ==> grid_view(trans_vec@)[jj] == column_seq(g, jj),
    {
        let mut column: Vec<T> = Vec::new();
        for i in 0..target.len()
            invariant
                columns == columns_of(g),
                is_grid(g, columns_of(g)),
                g == grid_view(target@),
                j < columns,
                column@.len() == i,
                forall|ii: int| 0 <= ii < i ==> column@[ii] == g[ii][j as int],
        {
            assert(g[i as int] == target@[i as int]@);
            assert(g[i as int].len() == columns);
            column.push(target[i][j]);
        }
        assert(column@ =~= column_seq(g, j as int));
        trans_vec.push(column);
    }
    assert(grid_view(trans_vec@) =~~= matrix_transpose(g, columns_of(g)));
    trans_vec
}

/// Element-wise difference of two vectors; the result is as long as the
/// shorter operand.
pub fn subtract_vectors<T: Scalar>(left: &[T], right: &[T]) -> (r: Vec<T>)
    ensures
        r@ == vector_difference(left@, right@),
{
    let len: usize = if left.len() <= right.len() {
        left.len()
    } else {
        right.len()
    };
    let mut result: Vec<T> = Vec::new();
    for i in 0..len
        invariant
            len <= left@.len(),
            len <= right@.len(),
            result@.len() == i,
            forall|ii: int| 0 <= ii < i ==> result@[ii] == left@[ii].sub_spec(right@[ii]),
    {
        result.push(left[i].sub_val(right[i]));
    }
    assert(result@ =~= vector_difference(left@, right@));
    result
}

/// A vector of `columns` zero cells.
pub fn create_zeroed_vector<T: Scalar>(columns: usize) -> (r: Vec<T>)
    ensures
        r@ == zero_row::<T>(columns as nat),
{
    let r = crate::vector::create_zeroed_vector(columns);
    assert(r@ =~= zero_row::<T>(columns as nat));
    r
}

} // verus!
