use hmm_rs::base::{n_free_params_defined, sufficient_statistics_shapes, ParamFlags};
use hmm_rs::emissions::CovarianceType::{Diag, Full, Spherical, Tied};
use hmm_rs::emissions::{categorical, gaussian, gmm, multinomial, poisson};
use hmm_rs::vhmm;

fn named(entries: &[(&str, &[usize])]) -> Vec<(String, Vec<usize>)> {
    entries.iter().map(|(n, s)| (n.to_string(), s.to_vec())).collect()
}

#[test]
fn test_base_statistics_shapes() {
    assert_eq!(
        sufficient_statistics_shapes(3),
        named(&[("nobs", &[1]), ("start", &[3]), ("trans", &[3, 3])])
    );
}

#[test]
fn test_discrete_statistics_shapes() {
    assert_eq!(categorical::sufficient_statistics_shapes(2, 5), named(&[("obs", &[2, 5])]));
    assert_eq!(multinomial::sufficient_statistics_shapes(2, 4), named(&[("obs", &[2, 4])]));
    assert_eq!(vhmm::categorical::sufficient_statistics_shapes(3, 2), named(&[("obs", &[3, 2])]));
    assert_eq!(
        poisson::sufficient_statistics_shapes(2, 3),
        named(&[("post", &[2]), ("obs", &[2, 3])])
    );
}

#[test]
fn test_gaussian_statistics_shapes() {
    let diag = named(&[("post", &[2]), ("obs", &[2, 3]), ("obs**2", &[2, 3])]);
    let full = named(&[
        ("post", &[2]),
        ("obs", &[2, 3]),
        ("obs**2", &[2, 3]),
        ("obs*obs.T", &[2, 3, 3]),
    ]);
    assert_eq!(gaussian::sufficient_statistics_shapes(Diag, 2, 3), diag);
    assert_eq!(gaussian::sufficient_statistics_shapes(Spherical, 2, 3), diag);
    assert_eq!(gaussian::sufficient_statistics_shapes(Full, 2, 3), full);
    assert_eq!(gaussian::sufficient_statistics_shapes(Tied, 2, 3), full);
    assert_eq!(vhmm::gaussian::sufficient_statistics_shapes(2, 3), full);
}

#[test]
fn test_gmm_statistics_shapes() {
    let common: [(&str, &[usize]); 3] =
        [("post_mix_sum", &[2, 3]), ("post_sum", &[2]), ("m_n", &[2, 3, 4])];
    let with = |c_n: &'static [usize]| {
        let mut v = named(&common);
        v.push(("c_n".to_string(), c_n.to_vec()));
        v
    };
    assert_eq!(gmm::sufficient_statistics_shapes(Full, 2, 3, 4), with(&[2, 3, 4, 4]));
    assert_eq!(gmm::sufficient_statistics_shapes(Diag, 2, 3, 4), with(&[2, 3, 4]));
    assert_eq!(gmm::sufficient_statistics_shapes(Spherical, 2, 3, 4), with(&[2, 3]));
    assert_eq!(gmm::sufficient_statistics_shapes(Tied, 2, 3, 4), with(&[2, 4, 4]));
}

#[test]
fn test_fit_scalars_defined() {
    assert!(categorical::n_fit_scalars_defined(2, 3));
    assert!(!categorical::n_fit_scalars_defined(2, 0));
    assert!(!categorical::n_fit_scalars_defined(usize::MAX, 3));
    assert!(multinomial::n_fit_scalars_defined(0, 1));
    assert!(!vhmm::categorical::n_fit_scalars_defined(1, 0));
    assert!(poisson::n_fit_scalars_defined(2, 0));
    assert!(!poisson::n_fit_scalars_defined(usize::MAX, 2));
    assert!(gaussian::n_fit_scalars_defined(Full, 2, 3));
    assert!(!gaussian::n_fit_scalars_defined(Full, 1, usize::MAX));
    assert!(gaussian::n_fit_scalars_defined(Spherical, 1, usize::MAX));
    assert!(!gaussian::n_fit_scalars_defined(Tied, 1, usize::MAX));
    assert!(gmm::n_fit_scalars_defined(Diag, 2, 2, 3));
    assert!(!gmm::n_fit_scalars_defined(Diag, 2, 0, 3));
    assert!(!gmm::n_fit_scalars_defined(Full, 2, 2, usize::MAX / 2));
    assert!(vhmm::gaussian::n_fit_scalars_defined(Spherical, 3, 2));
    assert!(!vhmm::gaussian::n_fit_scalars_defined(Spherical, usize::MAX / 2 + 1, 0));
}

#[test]
fn test_initial_mean_rows_defined() {
    assert!(gaussian::initial_mean_rows_defined(0, 0));
    assert!(!gaussian::initial_mean_rows_defined(2, 0));
    assert!(gaussian::initial_mean_rows_defined(2, 10));
    assert!(gmm::initial_mean_rows_defined(2, 0, 0));
    assert!(!gmm::initial_mean_rows_defined(2, 2, 0));
    assert!(gmm::initial_mean_rows_defined(2, 2, 10));
}

#[test]
fn test_free_params_defined() {
    let e = categorical::n_fit_scalars_per_param(2, 3);
    assert!(n_free_params_defined(&ParamFlags::new("ste"), 2, &e));
    assert!(!n_free_params_defined(&ParamFlags::new("ste"), 0, &e));
    let big = vec![('e', usize::MAX)];
    assert!(n_free_params_defined(&ParamFlags::new("e"), 1, &big));
    assert!(!n_free_params_defined(&ParamFlags::new("ee"), 1, &big));
    assert!(!n_free_params_defined(&ParamFlags::new("se"), 2, &big));
}
