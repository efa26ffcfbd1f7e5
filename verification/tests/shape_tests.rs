use kantorovich::shape::{
    point_cloud_shape, validate_barycenter_inputs, validate_cost_matrix_shape,
    validate_point_clouds, validate_support_lengths, InputError,
};

#[test]
fn cost_matrix_shape_accepts_exact_size() {
    let m = vec![1.0f64, 2.0, 3.0, 4.0, 5.0, 6.0];
    assert_eq!(validate_cost_matrix_shape(&m, 2, 3), Ok(()));
    assert_eq!(validate_cost_matrix_shape(&m, 3, 2), Ok(()));
}

#[test]
fn cost_matrix_shape_rejects_wrong_size() {
    let m = vec![1.0f64, 2.0];
    assert_eq!(
        validate_cost_matrix_shape(&m, 2, 2),
        Err(InputError::CostMatrixSize { len: 2, n_rows: 2, n_cols: 2 })
    );
}

#[test]
fn point_clouds_accept_matching_sizes() {
    let x = vec![0.0f64; 6];
    let y = vec![0.0f64; 4];
    let a = vec![0.0f64; 3];
    let b = vec![0.0f64; 2];
    assert_eq!(validate_point_clouds(&x, &y, &a, &b, 2), Ok(()));
}

#[test]
fn point_clouds_report_x_first() {
    let x = vec![0.0f64; 5];
    let y = vec![0.0f64; 1];
    let a = vec![0.0f64; 3];
    let b = vec![0.0f64; 2];
    assert_eq!(
        validate_point_clouds(&x, &y, &a, &b, 2),
        Err(InputError::XCloudSize { len: 5, count: 3, dim: 2 })
    );
}

#[test]
fn point_clouds_report_y() {
    let x = vec![0.0f64; 6];
    let y = vec![0.0f64; 3];
    let a = vec![0.0f64; 3];
    let b = vec![0.0f64; 2];
    assert_eq!(
        validate_point_clouds(&x, &y, &a, &b, 2),
        Err(InputError::YCloudSize { len: 3, count: 2, dim: 2 })
    );
}

#[test]
fn support_lengths_checked_in_order() {
    let p2 = vec![0.0f64; 2];
    let p3 = vec![0.0f64; 3];
    assert_eq!(validate_support_lengths(&p2, &p2, &p3, &p3), Ok(()));
    assert_eq!(
        validate_support_lengths(&p3, &p2, &p3, &p2),
        Err(InputError::SupportALength { points: 3, weights: 2 })
    );
    assert_eq!(
        validate_support_lengths(&p2, &p2, &p2, &p3),
        Err(InputError::SupportBLength { points: 2, weights: 3 })
    );
}

#[test]
fn barycenter_inputs_need_a_distribution() {
    let dists: Vec<&[f64]> = vec![];
    let w: Vec<f64> = vec![];
    assert_eq!(validate_barycenter_inputs(&dists, &w), Err(InputError::NoDistributions));
}

#[test]
fn barycenter_inputs_return_support_size() {
    let a1 = vec![0.2f64, 0.3, 0.5];
    let a2 = vec![0.1f64, 0.1, 0.8];
    let dists: Vec<&[f64]> = vec![&a1, &a2];
    assert_eq!(validate_barycenter_inputs(&dists, &[0.5, 0.5]), Ok(3));
}

#[test]
fn barycenter_inputs_report_first_bad_length() {
    let a1 = vec![0.2f64, 0.3, 0.5];
    let a2 = vec![0.5f64, 0.5];
    let a3 = vec![1.0f64];
    let dists: Vec<&[f64]> = vec![&a1, &a1, &a2, &a3];
    assert_eq!(
        validate_barycenter_inputs(&dists, &[0.25, 0.25, 0.25, 0.25]),
        Err(InputError::DistributionLength { index: 2, len: 2, expected: 3 })
    );
}

#[test]
fn barycenter_inputs_report_weight_count() {
    let a1 = vec![0.2f64, 0.3, 0.5];
    let dists: Vec<&[f64]> = vec![&a1, &a1];
    assert_eq!(
        validate_barycenter_inputs(&dists, &[1.0]),
        Err(InputError::WeightsLength { len: 1, expected: 2 })
    );
}

#[test]
fn point_cloud_shape_reads_dims() {
    assert_eq!(point_cloud_shape(&[500, 5], &[400, 5]), Ok((500, 400, 5)));
}

#[test]
fn point_cloud_shape_rejects_non_matrix() {
    assert_eq!(point_cloud_shape(&[500], &[400, 5]), Err(InputError::NotTwoDimensional));
    assert_eq!(point_cloud_shape(&[5, 5], &[4, 5, 1]), Err(InputError::NotTwoDimensional));
}

#[test]
fn point_cloud_shape_rejects_dimension_mismatch() {
    assert_eq!(
        point_cloud_shape(&[10, 3], &[10, 2]),
        Err(InputError::DimensionMismatch { x_dim: 3, y_dim: 2 })
    );
}
