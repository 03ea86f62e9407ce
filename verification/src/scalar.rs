use vstd::prelude::*;

verus! {

/// The numeric values a [`crate::matrix::Matrix`] may hold.
///
/// Every arithmetic operation comes in two forms: a `spec` function that
/// names the mathematical value of the operation, and an executable method
/// that is proved to return exactly that value. The matrix and network
/// contracts are stated over the `spec` forms, so they pin the computed
/// cells down to these operations, whatever the scalar type is.
pub trait Scalar: Copy + Sized {
    /// The value of an addition.
    spec fn add_spec(self, rhs: Self) -> Self;

    /// The value of a subtraction.
    spec fn sub_spec(self, rhs: Self) -> Self;

    /// The value of a multiplication.
    spec fn mul_spec(self, rhs: Self) -> Self;

    /// The additive neutral element used to fill zero matrices and to start
    /// dot-product sums.
    spec fn zero_spec() -> Self;

    /// The multiplicative neutral element; the backward pass needs it for
    /// the sigmoid-derivative factor `o * (one - o)`.
    spec fn one_spec() -> Self;

    fn add_val(self, rhs: Self) -> (r: Self)
        ensures
            r == self.add_spec(rhs),
    ;

    fn sub_val(self, rhs: Self) -> (r: Self)
        ensures
            r == self.sub_spec(rhs),
    ;

    fn mul_val(self, rhs: Self) -> (r: Self)
        ensures
            r == self.mul_spec(rhs),
    ;

    fn zero_val() -> (r: Self)
        ensures
            r == Self::zero_spec(),
    ;

    fn one_val() -> (r: Self)
        ensures
            r == Self::one_spec(),
    ;
}

/// Exact integer scalars with wrapping arithmetic; every operation is total,
/// so matrices over `i64` satisfy the algebraic cancellation laws exactly.
impl Scalar for i64 {
    open spec fn add_spec(self, rhs: i64) -> i64 {
        self.wrapping_add(rhs)
    }

    open spec fn sub_spec(self, rhs: i64) -> i64 {
        self.wrapping_sub(rhs)
    }

    open spec fn mul_spec(self, rhs: i64) -> i64 {
        self.wrapping_mul(rhs)
    }

    open spec fn zero_spec() -> i64 {
        0
    }

    open spec fn one_spec() -> i64 {
        1
    }

    fn add_val(self, rhs: i64) -> (r: i64) {
        self.wrapping_add(rhs)
    }

    fn sub_val(self, rhs: i64) -> (r: i64) {
        self.wrapping_sub(rhs)
    }

    fn mul_val(self, rhs: i64) -> (r: i64) {
        self.wrapping_mul(rhs)
    }

    fn zero_val() -> (r: i64) {
        0
    }

    fn one_val() -> (r: i64) {
        1
    }
}

/// The algebraic laws the matrix lemmas assume, shown to hold of the `i64`
/// scalars for every value: wrapping subtraction exactly inverts wrapping
/// addition, anything times zero is zero, and zero plus zero is zero.
pub proof fn lemma_i64_scalar_laws()
    ensures
        forall|x: i64, y: i64| #[trigger] x.add_spec(y).sub_spec(y) == x,
        forall|x: i64| #[trigger] x.mul_spec(<i64 as Scalar>::zero_spec())
            == <i64 as Scalar>::zero_spec(),
        <i64 as Scalar>::zero_spec().add_spec(<i64 as Scalar>::zero_spec()) == <i64 as Scalar>::zero_spec(),
{
    assert forall|x: i64, y: i64| #[trigger] x.add_spec(y).sub_spec(y) == x by {
        assert(x.wrapping_add(y).wrapping_sub(y) == x);
    }
    assert forall|x: i64| #[trigger] x.mul_spec(<i64 as Scalar>::zero_spec()) == <i64 as Scalar>::zero_spec() by {
        assert(x * 0 == 0);
        assert(x.wrapping_mul(0) == 0);
    }
}

} // verus!
