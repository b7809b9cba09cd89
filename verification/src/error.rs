use vstd::prelude::*;

verus! {

/// Errors reported by the model operations.
#[derive(Debug)]
pub enum HmmError {
    NotFitted(String),
    InvalidParameter(String),
    ShapeMismatch(String),
    SingularCovariance(usize),
    ForwardUnderflow,
    LinAlg(String),
}

/// Result of the model operations.
pub type Result<T> = core::result::Result<T, HmmError>;

} // verus!

verus! {

/// `r` is an `InvalidParameter` error whose message is `msg`.
pub open spec fn is_invalid_parameter<T>(r: core::result::Result<T, HmmError>, msg: Seq<char>) -> bool {
    match r {
        Err(HmmError::InvalidParameter(m)) => m@ == msg,
        _ => false,
    }
}

/// `r` is a `NotFitted` error whose message is `msg`.
pub open spec fn is_not_fitted<T>(r: core::result::Result<T, HmmError>, msg: Seq<char>) -> bool {
    match r {
        Err(HmmError::NotFitted(m)) => m@ == msg,
        _ => false,
    }
}

} // verus!

verus! {

/// The character of the decimal digit `d`.
pub open spec fn digit_char(d: nat) -> char {
    if d == 0 {
        '0'
    } else if d == 1 {
        '1'
    } else if d == 2 {
        '2'
    } else if d == 3 {
        '3'
    } else if d == 4 {
        '4'
    } else if d == 5 {
        '5'
    } else if d == 6 {
        '6'
    } else if d == 7 {
        '7'
    } else if d == 8 {
        '8'
    } else {
        '9'
    }
}

/// The decimal notation of `n`, most significant digit first, without
/// leading zeros (`0` for zero).
pub open spec fn decimal_text(n: nat) -> Seq<char>
    decreases n,
{
    if n < 10 {
        seq![digit_char(n)]
    } else {
        decimal_text(n / 10) + seq![digit_char(n % 10)]
    }
}

fn digit_str(d: usize) -> (s: &'static str)
    requires
        d < 10,
    ensures
        s@ == seq![digit_char(d as nat)],
{
    proof {
        reveal_strlit("0");
        reveal_strlit("1");
        reveal_strlit("2");
        reveal_strlit("3");
        reveal_strlit("4");
        reveal_strlit("5");
        reveal_strlit("6");
        reveal_strlit("7");
        reveal_strlit("8");
        reveal_strlit("9");
    }
    if d == 0 {
        "0"
    } else if d == 1 {
        "1"
    } else if d == 2 {
        "2"
    } else if d == 3 {
        "3"
    } else if d == 4 {
        "4"
    } else if d == 5 {
        "5"
    } else if d == 6 {
        "6"
    } else if d == 7 {
        "7"
    } else if d == 8 {
        "8"
    } else {
        "9"
    }
}

/// Decimal text of `n`.
pub fn usize_text(n: usize) -> (r: String)
    ensures
        r@ == decimal_text(n as nat),
    decreases n,
{
    if n < 10 {
        digit_str(n).to_owned()
    } else {
        let head = usize_text(n / 10);
        head.concat(digit_str(n % 10))
    }
}

impl HmmError {
    /// The human-readable description of the error.
    pub fn message(&self) -> (r: String)
        ensures
            match self {
                HmmError::NotFitted(m) => r@ == "model not fitted: "@ + m@,
                HmmError::InvalidParameter(m) => r@ == "invalid parameter: "@ + m@,
                HmmError::ShapeMismatch(m) => r@ == "shape mismatch: "@ + m@,
                HmmError::SingularCovariance(k) => r@
                    == "singular covariance matrix for component "@ + decimal_text(*k as nat),
                HmmError::ForwardUnderflow => r@
                    == "forward pass failed with underflow; consider using implementation='log'"@,
                HmmError::LinAlg(m) => r@ == "linear algebra error: "@ + m@,
            },
    {
        match self {
            HmmError::NotFitted(m) => "model not fitted: ".to_owned().concat(m.as_str()),
            HmmError::InvalidParameter(m) => "invalid parameter: ".to_owned().concat(m.as_str()),
            HmmError::ShapeMismatch(m) => "shape mismatch: ".to_owned().concat(m.as_str()),
            HmmError::SingularCovariance(k) => {
                let d = usize_text(*k);
                "singular covariance matrix for component ".to_owned().concat(d.as_str())
            },
            HmmError::ForwardUnderflow => {
                "forward pass failed with underflow; consider using implementation='log'".to_owned()
            },
            HmmError::LinAlg(m) => "linear algebra error: ".to_owned().concat(m.as_str()),
        }
    }
}

} // verus!
