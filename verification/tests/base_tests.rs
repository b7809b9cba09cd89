use hmm_rs::base::{check_base_shapes, check_fitted, n_free_params, ParamFlags};
use hmm_rs::emissions::categorical;
use hmm_rs::error::HmmError;

#[test]
fn test_param_flags_contains() {
    let p = ParamFlags::new("ste");
    assert!(p.contains('s'));
    assert!(p.contains('t'));
    assert!(p.contains('e'));
    assert!(!p.contains('m'));
    assert_eq!(p.as_str(), "ste");
}

#[test]
fn test_param_flags_empty() {
    let p = ParamFlags::new("");
    assert!(!p.contains('s'));
    assert_eq!(p.as_str(), "");
}

#[test]
fn test_categorical_free_parameter_count() {
    // s = 2 - 1, t = 2 * (2 - 1), e = 2 * (3 - 1)
    let emission = categorical::n_fit_scalars_per_param(2, 3);
    assert_eq!(n_free_params(&ParamFlags::new("ste"), 2, &emission), 7);
}

#[test]
fn test_free_parameters_only_listed_flags() {
    let emission = categorical::n_fit_scalars_per_param(3, 4);
    assert_eq!(n_free_params(&ParamFlags::new("s"), 3, &emission), 2);
    assert_eq!(n_free_params(&ParamFlags::new("t"), 3, &emission), 6);
    assert_eq!(n_free_params(&ParamFlags::new("e"), 3, &emission), 9);
    assert_eq!(n_free_params(&ParamFlags::new("xyz"), 3, &emission), 0);
    assert_eq!(n_free_params(&ParamFlags::new(""), 3, &emission), 0);
}

#[test]
fn test_free_parameters_additive_and_order_free() {
    let emission = categorical::n_fit_scalars_per_param(2, 3);
    let st = n_free_params(&ParamFlags::new("st"), 2, &emission);
    let e = n_free_params(&ParamFlags::new("e"), 2, &emission);
    assert_eq!(n_free_params(&ParamFlags::new("ste"), 2, &emission), st + e);
    assert_eq!(n_free_params(&ParamFlags::new("ets"), 2, &emission), st + e);
}

#[test]
fn test_free_parameters_repeated_flag_counts_twice() {
    let emission = categorical::n_fit_scalars_per_param(2, 3);
    assert_eq!(n_free_params(&ParamFlags::new("ss"), 2, &emission), 2);
}

#[test]
fn test_free_parameters_single_state() {
    let emission = categorical::n_fit_scalars_per_param(1, 3);
    assert_eq!(n_free_params(&ParamFlags::new("ste"), 1, &emission), 2);
}

#[test]
fn test_check_base_shapes() {
    assert!(check_base_shapes(2, 2, (2, 2)).is_ok());
    match check_base_shapes(2, 3, (2, 2)) {
        Err(HmmError::InvalidParameter(m)) => {
            assert_eq!(m, "startprob_ must have length n_components")
        },
        _ => panic!("expected an invalid startprob_"),
    }
    match check_base_shapes(2, 2, (2, 3)) {
        Err(HmmError::InvalidParameter(m)) => {
            assert_eq!(m, "transmat_ must have shape (n_components, n_components)")
        },
        _ => panic!("expected an invalid transmat_"),
    }
}

#[test]
fn test_check_fitted() {
    assert!(check_fitted(true).is_ok());
    match check_fitted(false) {
        Err(HmmError::NotFitted(m)) => assert_eq!(m, "model has not been fitted yet"),
        _ => panic!("expected NotFitted"),
    }
}
