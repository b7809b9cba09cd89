use vstd::prelude::*;

use crate::base::keys_distinct;

use crate::emissions::gaussian;
use crate::emissions::CovarianceType;

use crate::utils::{named_shape, names_distinct, shape_table};

verus! {

/// Free covariance scalars of a variational Gaussian emission model: the
/// Wishart degrees of freedom together with the scale scalars of the
/// covariance type (one shared set for tied covariances).
pub open spec fn covar_scalars(covariance_type: CovarianceType, nc: nat, nf: nat) -> nat {
    match covariance_type {
        CovarianceType::Full => nc + nc * nf * (nf + 1) / 2,
        CovarianceType::Tied => 1 + nf * (nf + 1) / 2,
        CovarianceType::Diag => nc + nc * nf,
        CovarianceType::Spherical => nc + nc,
    }
}

/// What the covariance count means: the scale scalars of the Gaussian
/// model with the same covariance type, plus the Wishart degrees of
/// freedom, one per state (a single shared one for tied covariances).
pub proof fn lemma_covar_scalars_meaning(covariance_type: CovarianceType, nc: nat, nf: nat)
    ensures
        covar_scalars(covariance_type, nc, nf) == gaussian::covar_scalars(covariance_type, nc, nf)
            + if covariance_type == CovarianceType::Tied {
            1
        } else {
            nc
        },
{
}

/// The sums and products that the parameter count computes fit in a
/// `usize`.
pub open spec fn counts_fit(covariance_type: CovarianceType, nc: usize, nf: usize) -> bool {
    &&& nc * nf + nc <= usize::MAX
    &&& match covariance_type {
        CovarianceType::Full => nf + 1 <= usize::MAX && nc * nf * (nf + 1) <= usize::MAX && nc + nc
            * nf * (nf + 1) / 2 <= usize::MAX,
        CovarianceType::Tied => nf + 1 <= usize::MAX && nf * (nf + 1) <= usize::MAX && 1 + nf * (
        nf + 1) / 2 <= usize::MAX,
        CovarianceType::Diag => true,
        CovarianceType::Spherical => nc + nc <= usize::MAX,
    }
}

/// Free scalars of a variational Gaussian emission model with
/// `n_components` states and `n_features` features: the means and their
/// precisions (`n_components * n_features + n_components`) under `m`, and
/// the covariance scalars under `c`.
pub fn n_fit_scalars_per_param(
    covariance_type: CovarianceType,
    n_components: usize,
    n_features: usize,
) -> (r: Vec<(char, usize)>)
    requires
        counts_fit(covariance_type, n_components, n_features),
    ensures
        keys_distinct(r@),
        r@ == seq![
            ('m', (n_components * n_features + n_components) as usize),
            ('c', covar_scalars(covariance_type, n_components as nat, n_features as nat) as usize),
        ],
{
    let nc = n_components;
    let nf = n_features;
    let c = match covariance_type {
        CovarianceType::Full => nc + nc * nf * (nf + 1) / 2,
        CovarianceType::Tied => 1 + nf * (nf + 1) / 2,
        CovarianceType::Diag => nc + nc * nf,
        CovarianceType::Spherical => nc + nc,
    };
    vec![('m', nc * nf + nc), ('c', c)]
}

/// Initial pseudo-count of the mean precisions and of the Wishart degrees
/// of freedom: the number of samples per state, at least one.
pub fn initial_posterior_count(n_samples: usize, n_components: usize) -> (r: usize)
    requires
        n_components > 0,
    ensures
        r == if n_samples / n_components >= 1 {
            n_samples / n_components
        } else {
            1
        },
{
    let q = n_samples / n_components;
    if q >= 1 {
        q
    } else {
        1
    }
}

/// Names and shapes of the statistics that the expectation step
/// accumulates for a variational Gaussian model with `n_components` states
/// and `n_features` features: the expected occupancy of each state, the
/// weighted sums of the observations, of their squares and of their outer
/// products.
pub fn sufficient_statistics_shapes(n_components: usize, n_features: usize) -> (r: Vec<(String, Vec<usize>)>)
    ensures
        names_distinct(shape_table(r@)),
        shape_table(r@) == seq![
            ("post"@, seq![n_components]),
            ("obs"@, seq![n_components, n_features]),
            ("obs**2"@, seq![n_components, n_features]),
            ("obs*obs.T"@, seq![n_components, n_features, n_features]),
        ],
{
    proof {
        reveal_strlit("obs");
        reveal_strlit("obs**2");
        reveal_strlit("obs*obs.T");
        reveal_strlit("post");
    }
    let nc = n_components;
    let nf = n_features;
    let e0 = named_shape("post", vec![nc]);
    assert(e0.1@ =~= seq![nc]);
    let e1 = named_shape("obs", vec![nc, nf]);
    assert(e1.1@ =~= seq![nc, nf]);
    let e2 = named_shape("obs**2", vec![nc, nf]);
    assert(e2.1@ =~= seq![nc, nf]);
    let e3 = named_shape("obs*obs.T", vec![nc, nf, nf]);
    assert(e3.1@ =~= seq![nc, nf, nf]);
    let r = vec![e0, e1, e2, e3];
    assert(shape_table(r@) =~= seq![
        ("post"@, seq![nc]),
        ("obs"@, seq![nc, nf]),
        ("obs**2"@, seq![nc, nf]),
        ("obs*obs.T"@, seq![nc, nf, nf]),
    ]);
    assert forall|i: int, j: int|
        0 <= i < j < shape_table(r@).len() implies #[trigger] shape_table(r@)[i].0
        != #[trigger] shape_table(r@)[j].0 by {
        assert(i == 0 || i == 1 || i == 2 || i == 3);
        assert(j == 0 || j == 1 || j == 2 || j == 3);
        assert(shape_table(r@)[0].0 != shape_table(r@)[1].0) by {
            assert("post"@.len() == 4);
            assert("obs"@.len() == 3);
        }
        assert(shape_table(r@)[0].0 != shape_table(r@)[2].0) by {
            assert("post"@.len() == 4);
            assert("obs**2"@.len() == 6);
        }
        assert(shape_table(r@)[0].0 != shape_table(r@)[3].0) by {
            assert("post"@.len() == 4);
            assert("obs*obs.T"@.len() == 9);
        }
        assert(shape_table(r@)[1].0 != shape_table(r@)[2].0) by {
            assert("obs"@.len() == 3);
            assert("obs**2"@.len() == 6);
        }
        assert(shape_table(r@)[1].0 != shape_table(r@)[3].0) by {
            assert("obs"@.len() == 3);
            assert("obs*obs.T"@.len() == 9);
        }
        assert(shape_table(r@)[2].0 != shape_table(r@)[3].0) by {
            assert("obs**2"@.len() == 6);
            assert("obs*obs.T"@.len() == 9);
        }
    }
    r
}

/// Whether `n_fit_scalars_per_param` is defined for these sizes: every sum
/// and product it computes fits in a `usize`.
pub fn n_fit_scalars_defined(
    covariance_type: CovarianceType,
    n_components: usize,
    n_features: usize,
) -> (r: bool)
    ensures
        r == counts_fit(covariance_type, n_components, n_features),
{
    let nc = n_components;
    let nf = n_features;
    let m = match nc.checked_mul(nf) {
        None => {
            return false;
        },
        Some(v) => v,
    };
    if m.checked_add(nc).is_none() {
        return false;
    }
    match covariance_type {
        CovarianceType::Full => match nf.checked_add(1) {
            None => false,
            Some(nf1) => match m.checked_mul(nf1) {
                None => false,
                Some(p) => nc.checked_add(p / 2).is_some(),
            },
        },
        CovarianceType::Tied => match nf.checked_add(1) {
            None => false,
            Some(nf1) => match nf.checked_mul(nf1) {
                None => false,
                Some(p) => (p / 2).checked_add(1).is_some(),
            },
        },
        CovarianceType::Diag => true,
        CovarianceType::Spherical => nc.checked_add(nc).is_some(),
    }
}

} // verus!
