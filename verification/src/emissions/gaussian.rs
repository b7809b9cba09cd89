use vstd::prelude::*;

use crate::base::keys_distinct;

use crate::emissions::{lemma_mul_half, lemma_symmetric_scalars, symmetric_scalars, CovarianceType};
use crate::error::{decimal_text, is_invalid_parameter, is_not_fitted, usize_text, HmmError};

use crate::utils::{named_shape, names_distinct, shape_table};

verus! {

/// Free covariance scalars of a Gaussian emission model: one variance per
/// state (spherical), one per state and feature (diagonal), a symmetric
/// matrix per state (full), or one symmetric matrix shared by all states
/// (tied).
pub open spec fn covar_scalars(covariance_type: CovarianceType, nc: nat, nf: nat) -> nat {
    match covariance_type {
        CovarianceType::Spherical => nc,
        CovarianceType::Diag => nc * nf,
        CovarianceType::Full => nc * nf * (nf + 1) / 2,
        CovarianceType::Tied => nf * (nf + 1) / 2,
    }
}

/// What the covariance count means: a tied model has one symmetric matrix
/// shared by all states, so its count is that matrix's free scalars
/// whatever the number of states; a full model has one such matrix per
/// state; a spherical model has one variance per state, as many as a
/// diagonal (or full) model with a single feature.
pub proof fn lemma_covar_scalars_meaning(nc: nat, nc2: nat, nf: nat)
    ensures
        covar_scalars(CovarianceType::Tied, nc, nf) == symmetric_scalars(nf),
        covar_scalars(CovarianceType::Tied, nc, nf) == covar_scalars(CovarianceType::Tied, nc2, nf),
        covar_scalars(CovarianceType::Full, nc, nf) == nc * symmetric_scalars(nf),
        covar_scalars(CovarianceType::Spherical, nc, nf) == covar_scalars(
            CovarianceType::Diag,
            nc,
            1,
        ),
        covar_scalars(CovarianceType::Full, nc, 1) == covar_scalars(CovarianceType::Diag, nc, 1),
        covar_scalars(CovarianceType::Diag, nc, nf) == nf * covar_scalars(
            CovarianceType::Spherical,
            nc,
            nf,
        ),
{
    lemma_symmetric_scalars(nf);
    lemma_symmetric_scalars(1);
    lemma_mul_half(nc, nf * (nf + 1));
    assert(nc * nf * (nf + 1) == nc * (nf * (nf + 1))) by (nonlinear_arith);
    assert(nc * 1 * (1 + 1) == nc * (1 * (1 + 1))) by (nonlinear_arith);
    lemma_mul_half(nc, 2);
    assert(nc * nf == nf * nc) by (nonlinear_arith);
}

/// The products that the parameter count computes fit in a `usize`.
pub open spec fn counts_fit(covariance_type: CovarianceType, nc: usize, nf: usize) -> bool {
    &&& nc * nf <= usize::MAX
    &&& match covariance_type {
        CovarianceType::Full => nf + 1 <= usize::MAX && nc * nf * (nf + 1) <= usize::MAX,
        CovarianceType::Tied => nf + 1 <= usize::MAX && nf * (nf + 1) <= usize::MAX,
        _ => true,
    }
}

/// Free scalars of a Gaussian emission model with `n_components` states
/// and `n_features` features: `n_components * n_features` means under the
/// flag `m`, and the covariance scalars under the flag `c`.
pub fn n_fit_scalars_per_param(
    covariance_type: CovarianceType,
    n_components: usize,
    n_features: usize,
) -> (r: Vec<(char, usize)>)
    requires
        counts_fit(covariance_type, n_components, n_features),
    ensures
        keys_distinct(r@),
        r@ == seq![
            ('m', (n_components * n_features) as usize),
            ('c', covar_scalars(covariance_type, n_components as nat, n_features as nat) as usize),
        ],
{
    let nc = n_components;
    let nf = n_features;
    let c = match covariance_type {
        CovarianceType::Spherical => nc,
        CovarianceType::Diag => nc * nf,
        CovarianceType::Full => nc * nf * (nf + 1) / 2,
        CovarianceType::Tied => nf * (nf + 1) / 2,
    };
    vec![('m', nc * nf), ('c', c)]
}

/// Shape that the covariance storage of the given type must have.
pub open spec fn expected_covars_shape(
    covariance_type: CovarianceType,
    nc: usize,
    nf: usize,
) -> Seq<usize> {
    match covariance_type {
        CovarianceType::Full => seq![nc, nf, nf],
        CovarianceType::Tied => seq![nf, nf],
        CovarianceType::Diag => seq![nc, nf],
        CovarianceType::Spherical => seq![nc],
    }
}

/// A covariance array of the given shape may be stored as the `storage`
/// kind of a model whose covariance type is `covariance_type`: the kinds
/// agree, the array has the rank of its kind, its matrices are square, and
/// its feature dimensions equal the number of features when that is known.
pub open spec fn covars_shape_valid(
    covariance_type: CovarianceType,
    storage: CovarianceType,
    n_features: Option<usize>,
    shape: Seq<usize>,
) -> bool {
    &&& storage == covariance_type
    &&& match storage {
        CovarianceType::Full => shape.len() == 3 && shape[1] == shape[2] && (n_features matches Some(
            nf,
        ) ==> shape[2] == nf),
        CovarianceType::Tied => shape.len() == 2 && shape[0] == shape[1] && (n_features matches Some(
            nf,
        ) ==> shape[1] == nf),
        CovarianceType::Diag => shape.len() == 2 && (n_features matches Some(nf) ==> shape[1]
            == nf),
        CovarianceType::Spherical => shape.len() == 1,
    }
}

/// Whether a covariance array of shape `shape` may be set as the `storage`
/// kind of a model with covariance type `covariance_type` and (when known)
/// `n_features` features.
pub fn covars_shape_ok(
    covariance_type: CovarianceType,
    storage: CovarianceType,
    n_features: Option<usize>,
    shape: &Vec<usize>,
) -> (r: bool)
    ensures
        r == covars_shape_valid(covariance_type, storage, n_features, shape@),
{
    if storage != covariance_type {
        return false;
    }
    let features_ok = |d: usize| -> (b: bool)
        ensures
            b == (n_features matches Some(nf) ==> d == nf),
        {
            match n_features {
                Some(nf) => d == nf,
                None => true,
            }
        };
    match storage {
        CovarianceType::Full => shape.len() == 3 && shape[1] == shape[2] && features_ok(shape[2]),
        CovarianceType::Tied => shape.len() == 2 && shape[0] == shape[1] && features_ok(shape[1]),
        CovarianceType::Diag => shape.len() == 2 && features_ok(shape[1]),
        CovarianceType::Spherical => shape.len() == 1,
    }
}

/// What the expected covariance shape means: it is a shape that the
/// covariance storage of its type accepts for `nf` features, with one
/// block per state unless the covariance is tied; and it is the only such
/// shape.
pub proof fn lemma_expected_covars_shape_meaning(
    covariance_type: CovarianceType,
    nc: usize,
    nf: usize,
    s: Seq<usize>,
)
    ensures
        covars_shape_valid(
            covariance_type,
            covariance_type,
            Some(nf),
            expected_covars_shape(covariance_type, nc, nf),
        ),
        covariance_type != CovarianceType::Tied ==> expected_covars_shape(
            covariance_type,
            nc,
            nf,
        )[0] == nc,
        covars_shape_valid(covariance_type, covariance_type, Some(nf), s) && (covariance_type
            != CovarianceType::Tied ==> s[0] == nc) ==> s == expected_covars_shape(
            covariance_type,
            nc,
            nf,
        ),
{
    if covars_shape_valid(covariance_type, covariance_type, Some(nf), s) && (covariance_type
        != CovarianceType::Tied ==> s[0] == nc) {
        assert(s =~= expected_covars_shape(covariance_type, nc, nf));
    }
}

/// Message for a covariance storage of the wrong shape.
pub open spec fn covars_message(covariance_type: CovarianceType) -> Seq<char> {
    match covariance_type {
        CovarianceType::Full => "full covars shape mismatch"@,
        CovarianceType::Tied => "tied covars shape mismatch"@,
        CovarianceType::Diag => "diag covars shape mismatch"@,
        CovarianceType::Spherical => "spherical covars length mismatch"@,
    }
}

/// Message for a mean matrix with the wrong number of rows.
pub open spec fn means_message(n_components: usize, rows: usize) -> Seq<char> {
    "means_ must have "@ + decimal_text(n_components as nat) + " rows, got "@ + decimal_text(
        rows as nat,
    )
}

fn same_shape(shape: &Vec<usize>, expected: &Vec<usize>) -> (r: bool)
    ensures
        r == (shape@ == expected@),
{
    if shape.len() != expected.len() {
        return false;
    }
    let mut i: usize = 0;
    while i < shape.len()
        invariant
            0 <= i <= shape.len(),
            shape.len() == expected.len(),
            forall|j: int| 0 <= j < i ==> shape@[j] == expected@[j],
        decreases shape.len() - i,
    {
        if shape[i] != expected[i] {
            return false;
        }
        i = i + 1;
    }
    assert(shape@ =~= expected@);
    true
}

/// Validates the shapes of a Gaussian emission model: the means must be
/// present with one row per state, and the covariance storage of the
/// model's covariance type must be present with the shape that type asks
/// for (the number of features is the means' number of columns).
pub fn check_shapes(
    covariance_type: CovarianceType,
    n_components: usize,
    means_shape: Option<(usize, usize)>,
    covars_shape: Option<Vec<usize>>,
) -> (r: Result<(), HmmError>)
    ensures
        means_shape is None ==> is_not_fitted(r, "means_ not set"@),
        means_shape matches Some((rows, cols)) ==> (rows == n_components ==> (covars_shape matches Some(
            s,
        ) ==> (r is Ok <==> (covars_shape_valid(covariance_type, covariance_type, Some(cols), s@) && (
        covariance_type != CovarianceType::Tied ==> s@[0] == n_components))))),
        means_shape matches Some((rows, cols)) ==> {
            if rows != n_components {
                is_invalid_parameter(r, means_message(n_components, rows))
            } else {
                match covars_shape {
                    None => is_not_fitted(r, "covars not set"@),
                    Some(s) => if s@ == expected_covars_shape(covariance_type, n_components, cols) {
                        r is Ok
                    } else {
                        is_invalid_parameter(r, covars_message(covariance_type))
                    },
                }
            }
        },
{
    let (rows, nf) = match means_shape {
        None => {
            return Err(HmmError::NotFitted("means_ not set".to_owned()));
        },
        Some(s) => s,
    };
    if rows != n_components {
        let m = "means_ must have ".to_owned().concat(usize_text(n_components).as_str()).concat(
            " rows, got ",
        ).concat(usize_text(rows).as_str());
        return Err(HmmError::InvalidParameter(m));
    }
    let shape = match covars_shape {
        None => {
            return Err(HmmError::NotFitted("covars not set".to_owned()));
        },
        Some(s) => s,
    };
    let nc = n_components;
    let expected: Vec<usize> = match covariance_type {
        CovarianceType::Full => vec![nc, nf, nf],
        CovarianceType::Tied => vec![nf, nf],
        CovarianceType::Diag => vec![nc, nf],
        CovarianceType::Spherical => vec![nc],
    };
    assert(expected@ =~= expected_covars_shape(covariance_type, nc, nf));
    proof {
        lemma_expected_covars_shape_meaning(covariance_type, nc, nf, shape@);
    }
    if !same_shape(&shape, &expected) {
        let m = match covariance_type {
            CovarianceType::Full => "full covars shape mismatch",
            CovarianceType::Tied => "tied covars shape mismatch",
            CovarianceType::Diag => "diag covars shape mismatch",
            CovarianceType::Spherical => "spherical covars length mismatch",
        };
        return Err(HmmError::InvalidParameter(m.to_owned()));
    }
    Ok(())
}

/// Observation rows whose values seed the state means: state `c` of
/// `n_components` takes row `c * n_samples / n_components`, which spreads
/// the seeds evenly through the data.
pub fn initial_mean_rows(n_components: usize, n_samples: usize) -> (r: Vec<usize>)
    requires
        n_components == 0 || (n_samples >= 1 && (n_components - 1) * n_samples <= usize::MAX),
    ensures
        r.len() == n_components,
        forall|c: int|
            0 <= c < n_components ==> #[trigger] r[c] == (c * n_samples) / (n_components as int)
                && r[c] < n_samples,
{
    let nc = n_components;
    let ns = n_samples;
    let mut rows: Vec<usize> = Vec::new();
    let mut c: usize = 0;
    while c < nc
        invariant
            0 <= c <= nc,
            nc == n_components,
            ns == n_samples,
            nc > 0 ==> ns >= 1 && (nc - 1) * ns <= usize::MAX,
            rows.len() == c,
            forall|k: int|
                0 <= k < c ==> #[trigger] rows[k] == (k * ns) / (nc as int) && rows[k] < ns,
        decreases nc - c,
    {
        proof {
            vstd::arithmetic::mul::lemma_mul_inequality(c as int, (nc - 1) as int, ns as int);
            vstd::arithmetic::mul::lemma_mul_strict_inequality(c as int, nc as int, ns as int);
            vstd::arithmetic::div_mod::lemma_multiply_divide_lt((c * ns) as int, nc as int, ns as int);
            vstd::arithmetic::mul::lemma_mul_is_commutative(nc as int, ns as int);
        }
        let idx = (c * ns) / nc;
        let row = if idx < ns - 1 {
            idx
        } else {
            ns - 1
        };
        rows.push(row);
        c = c + 1;
    }
    rows
}

/// Names and shapes of the statistics that the expectation step
/// accumulates for a Gaussian model with `n_components` states and
/// `n_features` features: the expected occupancy of each state, the
/// weighted sums of the observations and of their squares, and, for full
/// and tied covariances, the weighted sums of their outer products.
pub fn sufficient_statistics_shapes(
    covariance_type: CovarianceType,
    n_components: usize,
    n_features: usize,
) -> (r: Vec<(String, Vec<usize>)>)
    ensures
        names_distinct(shape_table(r@)),
        shape_table(r@) == (match covariance_type {
            CovarianceType::Tied | CovarianceType::Full => seq![
                ("post"@, seq![n_components]),
                ("obs"@, seq![n_components, n_features]),
                ("obs**2"@, seq![n_components, n_features]),
                ("obs*obs.T"@, seq![n_components, n_features, n_features]),
            ],
            _ => seq![
                ("post"@, seq![n_components]),
                ("obs"@, seq![n_components, n_features]),
                ("obs**2"@, seq![n_components, n_features]),
            ],
        }),
{
    proof {
        reveal_strlit("obs");
        reveal_strlit("obs**2");
        reveal_strlit("obs*obs.T");
        reveal_strlit("post");
    }
    let nc = n_components;
    let nf = n_features;
    match covariance_type {
        CovarianceType::Tied | CovarianceType::Full => {
            let e0 = named_shape("post", vec![nc]);
            assert(e0.1@ =~= seq![nc]);
            let e1 = named_shape("obs", vec![nc, nf]);
            assert(e1.1@ =~= seq![nc, nf]);
            let e2 = named_shape("obs**2", vec![nc, nf]);
            assert(e2.1@ =~= seq![nc, nf]);
            let e3 = named_shape("obs*obs.T", vec![nc, nf, nf]);
            assert(e3.1@ =~= seq![nc, nf, nf]);
            let r = vec![e0, e1, e2, e3];
            assert(shape_table(r@) =~= seq![
                ("post"@, seq![nc]),
                ("obs"@, seq![nc, nf]),
                ("obs**2"@, seq![nc, nf]),
                ("obs*obs.T"@, seq![nc, nf, nf]),
            ]);
            assert forall|i: int, j: int|
                0 <= i < j < shape_table(r@).len() implies #[trigger] shape_table(r@)[i].0
                != #[trigger] shape_table(r@)[j].0 by {
                assert(i == 0 || i == 1 || i == 2 || i == 3);
                assert(j == 0 || j == 1 || j == 2 || j == 3);
                assert(shape_table(r@)[0].0 != shape_table(r@)[1].0) by {
                    assert("post"@.len() == 4);
                    assert("obs"@.len() == 3);
                }
                assert(shape_table(r@)[0].0 != shape_table(r@)[2].0) by {
                    assert("post"@.len() == 4);
                    assert("obs**2"@.len() == 6);
                }
                assert(shape_table(r@)[0].0 != shape_table(r@)[3].0) by {
                    assert("post"@.len() == 4);
                    assert("obs*obs.T"@.len() == 9);
                }
                assert(shape_table(r@)[1].0 != shape_table(r@)[2].0) by {
                    assert("obs"@.len() == 3);
                    assert("obs**2"@.len() == 6);
                }
                assert(shape_table(r@)[1].0 != shape_table(r@)[3].0) by {
                    assert("obs"@.len() == 3);
                    assert("obs*obs.T"@.len() == 9);
                }
                assert(shape_table(r@)[2].0 != shape_table(r@)[3].0) by {
                    assert("obs**2"@.len() == 6);
                    assert("obs*obs.T"@.len() == 9);
                }
            }
            r
        },
        _ => {
            let e0 = named_shape("post", vec![nc]);
            assert(e0.1@ =~= seq![nc]);
            let e1 = named_shape("obs", vec![nc, nf]);
            assert(e1.1@ =~= seq![nc, nf]);
            let e2 = named_shape("obs**2", vec![nc, nf]);
            assert(e2.1@ =~= seq![nc, nf]);
            let r = vec![e0, e1, e2];
            assert(shape_table(r@) =~= seq![
                ("post"@, seq![nc]),
                ("obs"@, seq![nc, nf]),
                ("obs**2"@, seq![nc, nf]),
            ]);
            assert forall|i: int, j: int|
                0 <= i < j < shape_table(r@).len() implies #[trigger] shape_table(r@)[i].0
                != #[trigger] shape_table(r@)[j].0 by {
                assert(i == 0 || i == 1 || i == 2);
                assert(j == 0 || j == 1 || j == 2);
                assert(shape_table(r@)[0].0 != shape_table(r@)[1].0) by {
                    assert("post"@.len() == 4);
                    assert("obs"@.len() == 3);
                }
                assert(shape_table(r@)[0].0 != shape_table(r@)[2].0) by {
                    assert("post"@.len() == 4);
                    assert("obs**2"@.len() == 6);
                }
                assert(shape_table(r@)[1].0 != shape_table(r@)[2].0) by {
                    assert("obs"@.len() == 3);
                    assert("obs**2"@.len() == 6);
                }
            }
            r
        },
    }
}

/// Whether `n_fit_scalars_per_param` is defined for these sizes: every
/// product it computes fits in a `usize`.
pub fn n_fit_scalars_defined(
    covariance_type: CovarianceType,
    n_components: usize,
    n_features: usize,
) -> (r: bool)
    ensures
        r == counts_fit(covariance_type, n_components, n_features),
{
    let nc = n_components;
    let nf = n_features;
    let m = match nc.checked_mul(nf) {
        None => {
            return false;
        },
        Some(m) => m,
    };
    match covariance_type {
        CovarianceType::Full => match nf.checked_add(1) {
            None => false,
            Some(nf1) => m.checked_mul(nf1).is_some(),
        },
        CovarianceType::Tied => match nf.checked_add(1) {
            None => false,
            Some(nf1) => nf.checked_mul(nf1).is_some(),
        },
        _ => true,
    }
}

/// Whether `initial_mean_rows` is defined for these sizes: when there are
/// states, there is data to choose seeds from and the row arithmetic fits
/// in a `usize`.
pub fn initial_mean_rows_defined(n_components: usize, n_samples: usize) -> (r: bool)
    ensures
        r == (n_components == 0 || (n_samples >= 1 && (n_components - 1) * n_samples
            <= usize::MAX)),
{
    n_components == 0 || (n_samples >= 1 && (n_components - 1).checked_mul(n_samples).is_some())
}

} // verus!
