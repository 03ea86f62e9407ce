use neural_network::matrix::Matrix;
use neural_network::scalar::Scalar;
use neural_network::util::FixedSource;

/// 64-bit float scalars; see the network tests for the same pattern.
#[derive(Clone, Copy, Debug, PartialEq)]
struct F64(f64);

impl Scalar for F64 {
    fn add_spec(self, rhs: F64) -> F64 {
        F64(self.0 + rhs.0)
    }

    fn sub_spec(self, rhs: F64) -> F64 {
        F64(self.0 - rhs.0)
    }

    fn mul_spec(self, rhs: F64) -> F64 {
        F64(self.0 * rhs.0)
    }

    fn zero_spec() -> F64 {
        F64(0.0)
    }

    fn one_spec() -> F64 {
        F64(1.0)
    }

    fn add_val(self, rhs: F64) -> F64 {
        F64(self.0 + rhs.0)
    }

    fn sub_val(self, rhs: F64) -> F64 {
        F64(self.0 - rhs.0)
    }

    fn mul_val(self, rhs: F64) -> F64 {
        F64(self.0 * rhs.0)
    }

    fn zero_val() -> F64 {
        F64(0.0)
    }

    fn one_val() -> F64 {
        F64(1.0)
    }
}

#[test]
fn test_zero() {
    let m = Matrix::<F64>::zero(2, 2);
    assert_eq!(m.rows, 2);
    assert_eq!(m.columns, 2);
    assert_eq!(m.data_container[0][0], F64(0.0));
    assert_eq!(m.data_container[1][1], F64(0.0));
}

#[test]
fn test_create_weighting_vec() {
    let mut source = FixedSource { value: F64(0.25) };
    let vec = Matrix::create_weighting_matrix(3, 4, &mut source);
    assert_eq!(vec.data_container.len(), 4);
    assert_eq!(vec.data_container[0].len(), 3);
}

#[test]
fn test_multiply() {
    let mut m1 = Matrix::<F64>::zero(2, 3);
    m1.data_container[0][0] = F64(2.0);
    m1.data_container[0][1] = F64(3.0);
    m1.data_container[0][2] = F64(1.0);
    m1.data_container[1][0] = F64(2.0);
    m1.data_container[1][1] = F64(1.0);
    m1.data_container[1][2] = F64(1.0);

    let mut m2 = Matrix::<F64>::zero(3, 2);
    m2.data_container[0][0] = F64(3.0);
    m2.data_container[0][1] = F64(3.0);
    m2.data_container[1][0] = F64(2.0);
    m2.data_container[1][1] = F64(1.0);
    m2.data_container[2][0] = F64(2.0);
    m2.data_container[2][1] = F64(1.0);

    let m3 = m1.multiply(&m2).unwrap();
    assert_eq!(m3.data_container[0][0], F64(14.0));
    assert_eq!(m3.data_container[0][1], F64(10.0));
    assert_eq!(m3.data_container[1][0], F64(10.0));
    assert_eq!(m3.data_container[1][1], F64(8.0));

    assert_eq!(m3.rows, 2);
    assert_eq!(m3.columns, 2);
}

#[test]
fn test_multiply_err() {
    let mut m1 = Matrix::<F64>::zero(2, 3);
    m1.data_container[0][0] = F64(2.0);
    m1.data_container[0][1] = F64(3.0);
    m1.data_container[0][2] = F64(1.0);
    m1.data_container[1][0] = F64(2.0);
    m1.data_container[1][1] = F64(1.0);
    m1.data_container[1][2] = F64(1.0);

    let mut m2 = Matrix::<F64>::zero(2, 2);
    m2.data_container[0][0] = F64(3.0);
    m2.data_container[0][1] = F64(3.0);
    m2.data_container[1][0] = F64(2.0);
    m2.data_container[1][1] = F64(1.0);

    let m3 = m1.multiply(&m2);

    assert!(m3.is_err());
}

#[test]
fn test_add() {
    let mut m1 = Matrix::<F64>::zero(2, 2);
    m1.data_container[0][0] = F64(2.0);
    m1.data_container[0][1] = F64(3.0);
    m1.data_container[1][0] = F64(2.0);
    m1.data_container[1][1] = F64(1.0);

    let mut m2 = Matrix::<F64>::zero(2, 2);
    m2.data_container[0][0] = F64(3.0);
    m2.data_container[0][1] = F64(3.0);
    m2.data_container[1][0] = F64(2.0);
    m2.data_container[1][1] = F64(1.0);

    let m3 = m1.add(&m2).unwrap();

    assert_eq!(m3.data_container[0][0], F64(5.0));
    assert_eq!(m3.data_container[0][1], F64(6.0));
    assert_eq!(m3.data_container[1][0], F64(4.0));
    assert_eq!(m3.data_container[1][1], F64(2.0));

    assert_eq!(m3.rows, 2);
    assert_eq!(m3.columns, 2);
}

#[test]
fn test_add_err() {
    let mut m1 = Matrix::<F64>::zero(2, 2);
    m1.data_container[0][0] = F64(2.0);
    m1.data_container[0][1] = F64(3.0);
    m1.data_container[1][0] = F64(2.0);
    m1.data_container[1][1] = F64(1.0);

    let mut m2 = Matrix::<F64>::zero(2, 1);
    m2.data_container[0][0] = F64(3.0);
    m2.data_container[1][0] = F64(3.0);

    let m3 = m1.add(&m2);

    assert!(m3.is_err());
}

#[test]
fn test_subtract() {
    let m1 = Matrix::from_2d_vec(&[vec![F64(5.0), F64(6.0)], vec![F64(7.0), F64(8.0)]]).unwrap();
    let m2 = Matrix::from_2d_vec(&[vec![F64(1.0), F64(2.0)], vec![F64(3.0), F64(4.0)]]).unwrap();
    let m3 = m1.subtract(&m2).unwrap();
    assert_eq!(m3.data_container, vec![vec![F64(4.0), F64(4.0)], vec![F64(4.0), F64(4.0)]]);
}

#[test]
fn test_subtract_err() {
    let m1 = Matrix::from_2d_vec(&[vec![F64(5.0), F64(6.0)]]).unwrap();
    let m2 = Matrix::from_2d_vec(&[vec![F64(1.0)], vec![F64(3.0)]]).unwrap();
    assert!(m1.subtract(&m2).is_err());
}

#[test]
fn test_subtract_matrices() {
    let m1 = Matrix::from_2d_vec(&[vec![F64(2.0), F64(3.0)]]).unwrap();
    let m2 = Matrix::from_2d_vec(&[vec![F64(1.0), F64(1.5)]]).unwrap();
    let result = neural_network::math::subtract_matrices(&m1, &m2).unwrap();
    assert_eq!(result.data_container[0][0], F64(1.0));
    assert_eq!(result.data_container[0][1], F64(1.5));
}

#[test]
fn test_top_level_sum_matrices() {
    let m1 = Matrix::from_2d_vec(&[vec![F64(1.0), F64(2.0)], vec![F64(3.0), F64(4.0)]]).unwrap();
    let m2 = Matrix::from_2d_vec(&[vec![F64(5.0), F64(6.0)], vec![F64(7.0), F64(8.0)]]).unwrap();
    let result = neural_network::math::sum_matrices(&m1, &m2).unwrap();
    assert_eq!(result.data_container[0][0], F64(6.0));
    assert_eq!(result.data_container[0][1], F64(8.0));
    assert_eq!(result.data_container[1][0], F64(10.0));
    assert_eq!(result.data_container[1][1], F64(12.0));
}

#[test]
fn test_from_1d_vec() {
    let source = [F64(1.0), F64(2.0), F64(3.0)];

    let vertical = Matrix::from_1d_vec(&source, true);
    assert_eq!(vertical.rows, 3);
    assert_eq!(vertical.columns, 1);
    assert_eq!(vertical.data_container, vec![vec![F64(1.0)], vec![F64(2.0)], vec![F64(3.0)]]);

    let horizontal = Matrix::from_1d_vec(&source, false);
    assert_eq!(horizontal.rows, 1);
    assert_eq!(horizontal.columns, 3);
    assert_eq!(horizontal.data_container, vec![vec![F64(1.0), F64(2.0), F64(3.0)]]);
}

#[test]
fn test_from_2d_vec_err() {
    let empty: Vec<Vec<F64>> = vec![];
    assert!(Matrix::from_2d_vec(&empty).is_err());

    let ragged = vec![vec![F64(1.0), F64(2.0)], vec![F64(3.0)]];
    assert!(Matrix::<F64>::from_2d_vec(&ragged).is_err());
}

#[test]
fn test_get_and_set() {
    let mut m = Matrix::<F64>::zero(2, 3);
    m.set(1, 2, F64(9.0)).unwrap();
    assert_eq!(m.get(1, 2).unwrap(), F64(9.0));
    assert_eq!(m.get(0, 0).unwrap(), F64(0.0));
    assert!(m.get(2, 0).is_err());
    assert!(m.get(0, 3).is_err());
    assert!(m.set(2, 0, F64(1.0)).is_err());
    assert!(m.set(0, 3, F64(1.0)).is_err());
}

#[test]
fn test_multiply_by_zero_matrix() {
    let a = Matrix::from_2d_vec(&[vec![F64(2.0), F64(-3.0), F64(0.5)], vec![
        F64(7.0),
        F64(1.0),
        F64(-4.0),
    ]])
    .unwrap();
    let z = Matrix::<F64>::zero(3, 4);
    let p = a.multiply(&z).unwrap();
    assert_eq!(p.rows, 2);
    assert_eq!(p.columns, 4);
    for row in p.data_container.iter() {
        for cell in row.iter() {
            assert_eq!(*cell, F64(0.0));
        }
    }
}

#[test]
fn test_transpose_twice_is_identity() {
    let a = Matrix::from_2d_vec(&[vec![F64(1.0), F64(2.0), F64(3.0)], vec![
        F64(4.0),
        F64(5.0),
        F64(6.0),
    ]])
    .unwrap();
    let t = a.transpose();
    assert_eq!(t.rows, 3);
    assert_eq!(t.columns, 2);
    assert_eq!(t.data_container[2][1], F64(6.0));
    let tt = t.transpose();
    assert_eq!(tt.rows, a.rows);
    assert_eq!(tt.columns, a.columns);
    assert_eq!(tt.data_container, a.data_container);
}

#[test]
fn test_add_then_subtract_restores_within_tolerance() {
    let a = Matrix::from_2d_vec(&[vec![F64(0.1), F64(-2.7)], vec![F64(3.14), F64(0.001)]])
        .unwrap();
    let b = Matrix::from_2d_vec(&[vec![F64(1.9), F64(0.3)], vec![F64(-0.6), F64(41.5)]]).unwrap();
    let restored = a.add(&b).unwrap().subtract(&b).unwrap();
    for (row_a, row_r) in a.data_container.iter().zip(restored.data_container.iter()) {
        for (cell_a, cell_r) in row_a.iter().zip(row_r.iter()) {
            assert!((cell_a.0 - cell_r.0).abs() < 1e-9);
        }
    }
}

#[test]
fn test_add_then_subtract_exact_for_integers() {
    let a = Matrix::from_2d_vec(&[vec![10i64, -20i64], vec![30i64, i64::MAX]]).unwrap();
    let b = Matrix::from_2d_vec(&[vec![5i64, 7i64], vec![-9i64, 1i64]]).unwrap();
    let restored = a.add(&b).unwrap().subtract(&b).unwrap();
    assert_eq!(restored.data_container, a.data_container);
}
