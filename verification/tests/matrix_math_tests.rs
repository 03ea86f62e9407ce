use neural_network::matrix::math::{
    create_zeroed_vector, from_vector_to_matrix, multiply_matrices, subtract_vectors, sum_matrices,
    transpose_matrix,
};
use neural_network::scalar::Scalar;

/// 64-bit float scalars, exercising the library the way a trained network
/// uses it; the specification-level operations coincide with the executable
/// float operations.
#[derive(Clone, Copy, Debug, PartialEq)]
struct F64(f64);

impl Scalar for F64 {
    fn add_spec(self, rhs: F64) -> F64 {
        F64(self.0 + rhs.0)
    }

    fn sub_spec(self, rhs: F64) -> F64 {
        F64(self.0 - rhs.0)
    }

    fn mul_spec(self, rhs: F64) -> F64 {
        F64(self.0 * rhs.0)
    }

    fn zero_spec() -> F64 {
        F64(0.0)
    }

    fn one_spec() -> F64 {
        F64(1.0)
    }

    fn add_val(self, rhs: F64) -> F64 {
        F64(self.0 + rhs.0)
    }

    fn sub_val(self, rhs: F64) -> F64 {
        F64(self.0 - rhs.0)
    }

    fn mul_val(self, rhs: F64) -> F64 {
        F64(self.0 * rhs.0)
    }

    fn zero_val() -> F64 {
        F64(0.0)
    }

    fn one_val() -> F64 {
        F64(1.0)
    }
}

#[test]
fn test_transpose_matrix() {
    let a_1: Vec<f64> = vec![1.0, 2.0];
    let a_2: Vec<f64> = vec![3.0, 4.0];
    let a_3: Vec<f64> = vec![5.0, 6.0];
    let a = vec![a_1, a_2, a_3];
    let new_a = transpose_matrix(&a);

    assert_eq!(a[0][0], 1.0);
    assert_eq!(a[2][1], 6.0);
    assert_eq!(new_a[0][0], 1.0);
    assert_eq!(new_a[1][2], 6.0);
}

#[test]
fn test_multiply_matrices() {
    let vec_a_1: Vec<F64> = vec![F64(1.0), F64(2.0), F64(3.0)];
    let vec_a_2: Vec<F64> = vec![F64(4.0), F64(5.0), F64(6.0)];
    let vec_a: Vec<Vec<F64>> = vec![vec_a_1, vec_a_2];

    let vec_b_1: Vec<F64> = vec![F64(7.0), F64(8.0)];
    let vec_b_2: Vec<F64> = vec![F64(9.0), F64(10.0)];
    let vec_b_3: Vec<F64> = vec![F64(11.0), F64(12.0)];
    let vec_b: Vec<Vec<F64>> = vec![vec_b_1, vec_b_2, vec_b_3];

    let result: Vec<Vec<F64>> = multiply_matrices(&vec_a, &vec_b).unwrap();

    assert_eq!(result[0][0], F64(58.0));
    assert_eq!(result[0][1], F64(64.0));
    assert_eq!(result[1][0], F64(139.0));
    assert_eq!(result[1][1], F64(154.0));
}

#[test]
#[should_panic(expected = "incompatible vectors")]
fn test_multiply_matrices_error() {
    let vec_a_1: Vec<F64> = vec![F64(1.0), F64(2.0)];
    let vec_a_2: Vec<F64> = vec![F64(4.0), F64(5.0)];
    let vec_a: Vec<Vec<F64>> = vec![vec_a_1, vec_a_2];

    let vec_b: Vec<Vec<F64>> = vec![vec![F64(7.0), F64(8.0)]];

    if let Err(e) = multiply_matrices(&vec_a, &vec_b) {
        panic!("{}", e.message());
    }
}

#[test]
fn test_subtract_vectors() {
    let vec_a = vec![F64(2.0), F64(3.0)];
    let vec_b = vec![F64(1.0), F64(1.5)];
    let result = subtract_vectors(&vec_a, &vec_b);
    assert_eq!(result[0], F64(1.0));
    assert_eq!(result[1], F64(1.5));
}

#[test]
fn test_from_vector_to_matrix() {
    let test_vec = vec![vec![F64(1.0)], vec![F64(2.0)]];
    assert_eq!(test_vec[0][0], F64(1.0));
    assert_eq!(test_vec[1][0], F64(2.0));
    let test_vec = from_vector_to_matrix(&test_vec).unwrap();
    assert_eq!(test_vec[0][0], F64(1.0));
    assert_eq!(test_vec[1][1], F64(2.0));
}

#[test]
fn test_from_vector_to_matrix_fills_zeroes() {
    let test_vec = vec![vec![F64(1.0)], vec![F64(2.0)], vec![F64(3.0)]];
    let quadratic = from_vector_to_matrix(&test_vec).unwrap();
    assert_eq!(quadratic.len(), 3);
    for (i, row) in quadratic.iter().enumerate() {
        assert_eq!(row.len(), 3);
        for (j, cell) in row.iter().enumerate() {
            if i == j {
                assert_eq!(*cell, test_vec_value(i));
            } else {
                assert_eq!(*cell, F64(0.0));
            }
        }
    }
}

fn test_vec_value(i: usize) -> F64 {
    F64((i + 1) as f64)
}

#[test]
fn test_from_vector_to_matrix_empty_row() {
    let test_vec: Vec<Vec<F64>> = vec![vec![F64(1.0)], vec![]];
    assert!(from_vector_to_matrix(&test_vec).is_none());
}

#[test]
fn test_sum_matrices() {
    let first = vec![vec![F64(1.0), F64(2.0)], vec![F64(3.0), F64(4.0)]];
    let second = vec![vec![F64(5.0), F64(6.0)], vec![F64(7.0), F64(8.0)]];
    let result = sum_matrices(&first, &second).unwrap();
    assert_eq!(result[0][0], F64(6.0));
    assert_eq!(result[0][1], F64(8.0));
    assert_eq!(result[1][0], F64(10.0));
    assert_eq!(result[1][1], F64(12.0));
}

#[test]
fn test_sum_matrices_shape_error() {
    let first = vec![vec![F64(1.0), F64(2.0)]];
    let second = vec![vec![F64(5.0)], vec![F64(7.0)]];
    assert!(sum_matrices(&first, &second).is_err());
}

#[test]
fn math_test_create_zeroed_vector() {
    let z_vec: Vec<F64> = create_zeroed_vector(3);
    assert_eq!(z_vec[0], F64(0.0));
    assert_eq!(z_vec[1], F64(0.0));
    assert_eq!(z_vec[2], F64(0.0));
}
