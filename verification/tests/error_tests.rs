use hmm_rs::error::{usize_text, HmmError};

#[test]
fn test_error_messages() {
    assert_eq!(HmmError::NotFitted("x".to_string()).message(), "model not fitted: x");
    assert_eq!(HmmError::InvalidParameter("y".to_string()).message(), "invalid parameter: y");
    assert_eq!(HmmError::ShapeMismatch("z".to_string()).message(), "shape mismatch: z");
    assert_eq!(
        HmmError::SingularCovariance(12).message(),
        "singular covariance matrix for component 12"
    );
    assert_eq!(
        HmmError::ForwardUnderflow.message(),
        "forward pass failed with underflow; consider using implementation='log'"
    );
    assert_eq!(HmmError::LinAlg("w".to_string()).message(), "linear algebra error: w");
}

#[test]
fn test_usize_text() {
    assert_eq!(usize_text(0), "0");
    assert_eq!(usize_text(7), "7");
    assert_eq!(usize_text(10), "10");
    assert_eq!(usize_text(1234567), "1234567");
    assert_eq!(usize_text(usize::MAX), usize::MAX.to_string());
}
