use hmm_rs::emissions::CovarianceType::{Diag, Full, Spherical, Tied};
use hmm_rs::emissions::{categorical, gaussian, gmm, multinomial, poisson};
use hmm_rs::error::HmmError;
use hmm_rs::vhmm;

fn invalid(r: Result<(), HmmError>) -> String {
    match r {
        Err(HmmError::InvalidParameter(m)) => m,
        other => panic!("expected InvalidParameter, got {:?}", other),
    }
}

fn not_fitted(r: Result<(), HmmError>) -> String {
    match r {
        Err(HmmError::NotFitted(m)) => m,
        other => panic!("expected NotFitted, got {:?}", other),
    }
}

#[test]
fn test_fit_scalar_counts() {
    assert_eq!(categorical::n_fit_scalars_per_param(2, 3), vec![('e', 4)]);
    assert_eq!(multinomial::n_fit_scalars_per_param(3, 5), vec![('e', 12)]);
    assert_eq!(poisson::n_fit_scalars_per_param(2, 4), vec![('l', 8)]);
    assert_eq!(vhmm::categorical::n_fit_scalars_per_param(4, 2), vec![('e', 4)]);
}

#[test]
fn test_gaussian_fit_scalar_counts() {
    assert_eq!(gaussian::n_fit_scalars_per_param(Spherical, 3, 2), vec![('m', 6), ('c', 3)]);
    assert_eq!(gaussian::n_fit_scalars_per_param(Diag, 3, 2), vec![('m', 6), ('c', 6)]);
    assert_eq!(gaussian::n_fit_scalars_per_param(Full, 3, 2), vec![('m', 6), ('c', 9)]);
    assert_eq!(gaussian::n_fit_scalars_per_param(Tied, 3, 2), vec![('m', 6), ('c', 3)]);
}

#[test]
fn test_gmm_fit_scalar_counts() {
    assert_eq!(
        gmm::n_fit_scalars_per_param(Spherical, 2, 3, 2),
        vec![('m', 12), ('c', 6), ('w', 2)]
    );
    assert_eq!(gmm::n_fit_scalars_per_param(Diag, 2, 3, 2), vec![('m', 12), ('c', 12), ('w', 2)]);
    assert_eq!(gmm::n_fit_scalars_per_param(Full, 2, 3, 2), vec![('m', 12), ('c', 18), ('w', 2)]);
    assert_eq!(gmm::n_fit_scalars_per_param(Tied, 2, 3, 2), vec![('m', 12), ('c', 6), ('w', 2)]);
}

#[test]
fn test_variational_gaussian_fit_scalar_counts() {
    let g = vhmm::gaussian::n_fit_scalars_per_param;
    assert_eq!(g(Full, 2, 3), vec![('m', 8), ('c', 14)]);
    assert_eq!(g(Tied, 2, 3), vec![('m', 8), ('c', 7)]);
    assert_eq!(g(Diag, 2, 3), vec![('m', 8), ('c', 8)]);
    assert_eq!(g(Spherical, 2, 3), vec![('m', 8), ('c', 4)]);
}

#[test]
fn test_categorical_check_shape() {
    assert!(categorical::check_shape(2, Some(3), Some((2, 3))).is_ok());
    assert!(categorical::check_shape(2, None, Some((2, 5))).is_ok());
    assert_eq!(not_fitted(categorical::check_shape(2, Some(3), None)), "emissionprob_ not set");
    assert_eq!(
        invalid(categorical::check_shape(2, Some(3), Some((3, 4)))),
        "emissionprob_ must have shape (2, 3), got [3, 4]"
    );
}

#[test]
fn test_multinomial_check_shape() {
    assert!(multinomial::check_shape(2, Some(3), Some((2, 3))).is_ok());
    assert_eq!(not_fitted(multinomial::check_shape(2, None, None)), "emissionprob_ not set");
    assert_eq!(
        invalid(multinomial::check_shape(2, Some(4), Some((2, 3)))),
        "emissionprob_ shape mismatch"
    );
}

#[test]
fn test_poisson_check_shape() {
    assert!(poisson::check_shape(2, None, Some((2, 1))).is_ok());
    assert_eq!(not_fitted(poisson::check_shape(2, Some(1), None)), "lambdas_ not set");
    assert_eq!(
        invalid(poisson::check_shape(3, Some(1), Some((2, 1)))),
        "lambdas_ must have shape (3, 1)"
    );
}

#[test]
fn test_gaussian_check_shapes() {
    assert!(gaussian::check_shapes(Full, 2, Some((2, 3)), Some(vec![2, 3, 3])).is_ok());
    assert!(gaussian::check_shapes(Tied, 2, Some((2, 3)), Some(vec![3, 3])).is_ok());
    assert!(gaussian::check_shapes(Diag, 2, Some((2, 3)), Some(vec![2, 3])).is_ok());
    assert!(gaussian::check_shapes(Spherical, 2, Some((2, 3)), Some(vec![2])).is_ok());
    assert_eq!(not_fitted(gaussian::check_shapes(Diag, 2, None, None)), "means_ not set");
    assert_eq!(
        invalid(gaussian::check_shapes(Diag, 2, Some((3, 3)), Some(vec![2, 3]))),
        "means_ must have 2 rows, got 3"
    );
    assert_eq!(not_fitted(gaussian::check_shapes(Diag, 2, Some((2, 3)), None)), "covars not set");
    assert_eq!(
        invalid(gaussian::check_shapes(Full, 2, Some((2, 3)), Some(vec![2, 3]))),
        "full covars shape mismatch"
    );
    assert_eq!(
        invalid(gaussian::check_shapes(Tied, 2, Some((2, 3)), Some(vec![2, 3, 3]))),
        "tied covars shape mismatch"
    );
    assert_eq!(
        invalid(gaussian::check_shapes(Diag, 2, Some((2, 3)), Some(vec![2, 2]))),
        "diag covars shape mismatch"
    );
    assert_eq!(
        invalid(gaussian::check_shapes(Spherical, 2, Some((2, 3)), Some(vec![3]))),
        "spherical covars length mismatch"
    );
}

#[test]
fn test_gmm_check_shapes() {
    assert!(gmm::check_shapes(2, 3, Some((2, 3, 4)), Some((2, 3)), true).is_ok());
    assert_eq!(not_fitted(gmm::check_shapes(2, 3, None, Some((2, 3)), true)), "means_ not set");
    assert_eq!(
        invalid(gmm::check_shapes(2, 3, Some((2, 2, 4)), Some((2, 3)), true)),
        "means_ shape mismatch"
    );
    assert_eq!(not_fitted(gmm::check_shapes(2, 3, Some((2, 3, 4)), None, true)), "weights_ not set");
    assert_eq!(
        invalid(gmm::check_shapes(2, 3, Some((2, 3, 4)), Some((3, 3)), true)),
        "weights_ shape mismatch"
    );
    assert_eq!(
        not_fitted(gmm::check_shapes(2, 3, Some((2, 3, 4)), Some((2, 3)), false)),
        "covars not set"
    );
}

#[test]
fn test_gaussian_initial_mean_rows() {
    assert_eq!(gaussian::initial_mean_rows(2, 15), vec![0, 7]);
    assert_eq!(gaussian::initial_mean_rows(3, 9), vec![0, 3, 6]);
    assert_eq!(gaussian::initial_mean_rows(3, 1), vec![0, 0, 0]);
    assert!(gaussian::initial_mean_rows(0, 0).is_empty());
}

#[test]
fn test_gmm_initial_mean_rows() {
    assert_eq!(gmm::initial_mean_rows(2, 2, 10), vec![0, 2, 5, 7]);
    assert_eq!(gmm::initial_mean_rows(2, 1, 4), vec![0, 2]);
    assert!(gmm::initial_mean_rows(2, 0, 4).is_empty());
}

#[test]
fn test_initial_posterior_count() {
    assert_eq!(vhmm::gaussian::initial_posterior_count(9, 2), 4);
    assert_eq!(vhmm::gaussian::initial_posterior_count(1, 2), 1);
    assert_eq!(vhmm::gaussian::initial_posterior_count(0, 3), 1);
}

#[test]
fn test_covars_shape_ok() {

    assert!(gaussian::covars_shape_ok(Full, Full, Some(2), &vec![3, 2, 2]));
    assert!(gaussian::covars_shape_ok(Full, Full, None, &vec![3, 4, 4]));
    assert!(!gaussian::covars_shape_ok(Full, Full, Some(2), &vec![3, 3, 3]));
    assert!(!gaussian::covars_shape_ok(Full, Full, None, &vec![3, 2, 4]));
    assert!(!gaussian::covars_shape_ok(Full, Full, None, &vec![2, 2]));
    assert!(!gaussian::covars_shape_ok(Diag, Full, None, &vec![3, 2, 2]));
    assert!(gaussian::covars_shape_ok(Tied, Tied, Some(2), &vec![2, 2]));
    assert!(!gaussian::covars_shape_ok(Tied, Tied, None, &vec![2, 3]));
    assert!(gaussian::covars_shape_ok(Diag, Diag, Some(3), &vec![2, 3]));
    assert!(!gaussian::covars_shape_ok(Diag, Diag, Some(3), &vec![2, 2]));
    assert!(gaussian::covars_shape_ok(Spherical, Spherical, Some(3), &vec![2]));
    assert!(!gaussian::covars_shape_ok(Spherical, Spherical, None, &vec![2, 1]));
    assert!(!gaussian::covars_shape_ok(Spherical, Diag, None, &vec![2, 1]));
}

#[test]
fn test_fit_scalar_keys_distinct() {
    for v in [
        gmm::n_fit_scalars_per_param(Full, 2, 3, 2),
        gaussian::n_fit_scalars_per_param(Tied, 2, 3),
        vhmm::gaussian::n_fit_scalars_per_param(Diag, 2, 3),
    ] {
        for i in 0..v.len() {
            for j in i + 1..v.len() {
                assert_ne!(v[i].0, v[j].0);
            }
        }
    }
}
