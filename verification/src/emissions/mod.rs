//! Emission models: the rules on their parameter counts, parameter shapes
//! and initial parameter choices.

pub mod categorical;
pub mod gaussian;
pub mod gmm;
pub mod multinomial;
pub mod poisson;

use vstd::prelude::*;

verus! {

/// Covariance matrix parameterization type.
#[derive(Clone, Copy, Debug, PartialEq, Eq, Structural)]
pub enum CovarianceType {
    Full,
    Tied,
    Diag,
    Spherical,
}

/// Free scalars of a symmetric `n` by `n` matrix, counted row by row:
/// growing an `n - 1` by `n - 1` matrix by one row and column adds `n` free
/// entries (the new diagonal entry and the `n - 1` entries beside it; the
/// mirrored ones are not free).
pub open spec fn symmetric_scalars(n: nat) -> nat
    decreases n,
{
    if n == 0 {
        0
    } else {
        symmetric_scalars((n - 1) as nat) + n
    }
}

/// The row-by-row count of a symmetric matrix's free scalars has the closed
/// form `n * (n + 1) / 2`, and `n * (n + 1)` is even.
pub proof fn lemma_symmetric_scalars(n: nat)
    ensures
        (n * (n + 1)) % 2 == 0,
        symmetric_scalars(n) == n * (n + 1) / 2,
    decreases n,
{
    if n > 0 {
        let m = (n - 1) as nat;
        lemma_symmetric_scalars(m);
        assert(n * (n + 1) == m * (m + 1) + 2 * n) by (nonlinear_arith)
            requires
                m + 1 == n,
        ;
    }
}

/// Halving commutes with a factor when the halved product is even:
/// `a * b / 2 == a * (b / 2)` for even `b`.
pub proof fn lemma_mul_half(a: nat, b: nat)
    requires
        b % 2 == 0,
    ensures
        a * b / 2 == a * (b / 2),
        (a * b) % 2 == 0,
{
    let k = b / 2;
    assert(b == 2 * k);
    assert(a * b == 2 * (a * k)) by (nonlinear_arith)
        requires
            b == 2 * k,
    ;
}

} // verus!
