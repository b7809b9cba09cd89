use vstd::prelude::*;

use crate::base::keys_distinct;

use crate::emissions::gaussian;
use crate::emissions::{lemma_mul_half, lemma_symmetric_scalars, symmetric_scalars, CovarianceType};
use crate::error::{is_invalid_parameter, is_not_fitted, HmmError};

use crate::utils::{named_shape, names_distinct, shape_table};

verus! {

/// Free covariance scalars of a Gaussian-mixture emission model with `nm`
/// mixture components per state: one variance per mixture component
/// (spherical), one per component and feature (diagonal), a symmetric
/// matrix per component (full), or one symmetric matrix per state shared by
/// its components (tied).
pub open spec fn covar_scalars(covariance_type: CovarianceType, nc: nat, nm: nat, nf: nat) -> nat {
    match covariance_type {
        CovarianceType::Spherical => nc * nm,
        CovarianceType::Diag => nc * nm * nf,
        CovarianceType::Full => nc * nm * nf * (nf + 1) / 2,
        CovarianceType::Tied => nc * nf * (nf + 1) / 2,
    }
}

/// What the covariance count means: with tied covariances each state has
/// one symmetric matrix shared by its mixture components, so the count is
/// that of a full Gaussian model with the same states, whatever the number
/// of components; otherwise every component has its own covariance, so the
/// count is the number of components times that of the Gaussian model of
/// the same type; with a single component, tied and full agree.
pub proof fn lemma_covar_scalars_meaning(nc: nat, nm: nat, nm2: nat, nf: nat)
    ensures
        covar_scalars(CovarianceType::Tied, nc, nm, nf) == nc * symmetric_scalars(nf),
        covar_scalars(CovarianceType::Tied, nc, nm, nf) == covar_scalars(
            CovarianceType::Tied,
            nc,
            nm2,
            nf,
        ),
        covar_scalars(CovarianceType::Tied, nc, nm, nf) == gaussian::covar_scalars(
            CovarianceType::Full,
            nc,
            nf,
        ),
        covar_scalars(CovarianceType::Full, nc, nm, nf) == nm * gaussian::covar_scalars(
            CovarianceType::Full,
            nc,
            nf,
        ),
        covar_scalars(CovarianceType::Diag, nc, nm, nf) == nm * gaussian::covar_scalars(
            CovarianceType::Diag,
            nc,
            nf,
        ),
        covar_scalars(CovarianceType::Spherical, nc, nm, nf) == nm * gaussian::covar_scalars(
            CovarianceType::Spherical,
            nc,
            nf,
        ),
        covar_scalars(CovarianceType::Full, nc, 1, nf) == covar_scalars(
            CovarianceType::Tied,
            nc,
            1,
            nf,
        ),
{
    lemma_symmetric_scalars(nf);
    gaussian::lemma_covar_scalars_meaning(nc, nc, nf);
    let t = nf * (nf + 1);
    lemma_mul_half(nc, t);
    lemma_mul_half(nc * nm, t);
    assert(nc * nf * (nf + 1) == nc * t) by (nonlinear_arith)
        requires
            t == nf * (nf + 1),
    ;
    assert(nc * nm * nf * (nf + 1) == (nc * nm) * t) by (nonlinear_arith)
        requires
            t == nf * (nf + 1),
    ;
    assert((nc * nm) * (t / 2) == nm * (nc * (t / 2))) by (nonlinear_arith);
    assert(nc * nm * nf == nm * (nc * nf)) by (nonlinear_arith);
    assert(nc * nm == nm * nc) by (nonlinear_arith);
    assert(nc * 1 * nf * (nf + 1) == nc * t) by (nonlinear_arith)
        requires
            t == nf * (nf + 1),
    ;
}

/// The products that the parameter count computes fit in a `usize`.
pub open spec fn counts_fit(covariance_type: CovarianceType, nc: usize, nm: usize, nf: usize) -> bool {
    &&& nm >= 1
    &&& nc * nm * nf <= usize::MAX
    &&& nc * nm <= usize::MAX
    &&& match covariance_type {
        CovarianceType::Full => nf + 1 <= usize::MAX && nc * nm * nf * (nf + 1) <= usize::MAX,
        CovarianceType::Tied => nf + 1 <= usize::MAX && nc * nf <= usize::MAX && nc * nf * (nf
            + 1) <= usize::MAX,
        _ => true,
    }
}

/// Free scalars of a Gaussian-mixture emission model with `n_components`
/// states, `n_mix` mixture components per state and `n_features` features:
/// the means under `m`, the covariance scalars under `c`, and the
/// `n_mix - 1` free mixture weights under `w`.
pub fn n_fit_scalars_per_param(
    covariance_type: CovarianceType,
    n_components: usize,
    n_mix: usize,
    n_features: usize,
) -> (r: Vec<(char, usize)>)
    requires
        counts_fit(covariance_type, n_components, n_mix, n_features),
    ensures
        keys_distinct(r@),
        r@ == seq![
            ('m', (n_components * n_mix * n_features) as usize),
            (
                'c',
                covar_scalars(
                    covariance_type,
                    n_components as nat,
                    n_mix as nat,
                    n_features as nat,
                ) as usize,
            ),
            ('w', (n_mix - 1) as usize),
        ],
{
    let nc = n_components;
    let nf = n_features;
    let nm = n_mix;
    let c = match covariance_type {
        CovarianceType::Spherical => nc * nm,
        CovarianceType::Diag => nc * nm * nf,
        CovarianceType::Full => nc * nm * nf * (nf + 1) / 2,
        CovarianceType::Tied => nc * nf * (nf + 1) / 2,
    };
    vec![('m', nc * nm * nf), ('c', c), ('w', nm - 1)]
}

/// Validates the shapes of a Gaussian-mixture emission model: the means
/// must be present with one block per state and one row per mixture
/// component, the weights must be present with one row per state and one
/// column per component, and the covariances must be present.
pub fn check_shapes(
    n_components: usize,
    n_mix: usize,
    means_shape: Option<(usize, usize, usize)>,
    weights_shape: Option<(usize, usize)>,
    has_covars: bool,
) -> (r: Result<(), HmmError>)
    ensures
        means_shape is None ==> is_not_fitted(r, "means_ not set"@),
        means_shape matches Some((a, b, _f)) ==> {
            if a != n_components || b != n_mix {
                is_invalid_parameter(r, "means_ shape mismatch"@)
            } else {
                match weights_shape {
                    None => is_not_fitted(r, "weights_ not set"@),
                    Some((wa, wb)) => if wa != n_components || wb != n_mix {
                        is_invalid_parameter(r, "weights_ shape mismatch"@)
                    } else if !has_covars {
                        is_not_fitted(r, "covars not set"@)
                    } else {
                        r is Ok
                    },
                }
            }
        },
{
    let (a, b, _f) = match means_shape {
        None => {
            return Err(HmmError::NotFitted("means_ not set".to_owned()));
        },
        Some(s) => s,
    };
    if a != n_components || b != n_mix {
        return Err(HmmError::InvalidParameter("means_ shape mismatch".to_owned()));
    }
    let (wa, wb) = match weights_shape {
        None => {
            return Err(HmmError::NotFitted("weights_ not set".to_owned()));
        },
        Some(s) => s,
    };
    if wa != n_components || wb != n_mix {
        return Err(HmmError::InvalidParameter("weights_ shape mismatch".to_owned()));
    }
    if !has_covars {
        return Err(HmmError::NotFitted("covars not set".to_owned()));
    }
    Ok(())
}

/// Observation rows whose values seed the mixture means: mixture component
/// `m` of state `c` is seed number `k = c * n_mix + m` and takes row
/// `k * n_samples / (n_components * n_mix)`, which spreads the seeds evenly
/// through the data. The result lists the rows by seed number.
pub fn initial_mean_rows(n_components: usize, n_mix: usize, n_samples: usize) -> (r: Vec<usize>)
    requires
        n_components == 0 || n_mix == 0 || (n_samples >= 1 && n_components * n_mix
            <= usize::MAX && (n_components * n_mix - 1) * n_samples <= usize::MAX),
    ensures
        r.len() == n_components * n_mix,
        forall|k: int|
            0 <= k < n_components * n_mix ==> #[trigger] r[k] == (k * n_samples) / (n_components
                * n_mix) && r[k] < n_samples,
{
    let nc = n_components;
    let nm = n_mix;
    let ns = n_samples;
    let mut rows: Vec<usize> = Vec::new();
    if nc == 0 || nm == 0 {
        proof {
            assert(nc * nm == 0) by (nonlinear_arith)
                requires
                    nc == 0 || nm == 0,
            ;
        }
        return rows;
    }
    let total = nc * nm;
    let mut c: usize = 0;
    while c < nc
        invariant
            0 <= c <= nc,
            nc == n_components,
            nm == n_mix,
            ns == n_samples,
            nc >= 1,
            nm >= 1,
            ns >= 1,
            total == nc * nm,
            (total - 1) * ns <= usize::MAX,
            rows.len() == c * nm,
            forall|k: int|
                0 <= k < c * nm ==> #[trigger] rows[k] == (k * ns) / (total as int) && rows[k]
                    < ns,
        decreases nc - c,
    {
        let mut m: usize = 0;
        while m < nm
            invariant
                0 <= c < nc,
                0 <= m <= nm,
                nc >= 1,
                nm >= 1,
                ns >= 1,
                total == nc * nm,
                (total - 1) * ns <= usize::MAX,
                rows.len() == c * nm + m,
                forall|k: int|
                    0 <= k < c * nm + m ==> #[trigger] rows[k] == (k * ns) / (total as int)
                        && rows[k] < ns,
            decreases nm - m,
        {
            let ghost k: int = c * nm + m;
            proof {
                assert(c * nm + m <= total - 1) by (nonlinear_arith)
                    requires
                        c < nc,
                        m < nm,
                        total == nc * nm,
                ;
                vstd::arithmetic::mul::lemma_mul_inequality(k, (total - 1) as int, ns as int);
                vstd::arithmetic::mul::lemma_mul_strict_inequality(k, total as int, ns as int);
                vstd::arithmetic::mul::lemma_mul_is_commutative(total as int, ns as int);
                vstd::arithmetic::div_mod::lemma_multiply_divide_lt(k * ns, total as int, ns as int);
            }
            let idx = ((c * nm + m) * ns) / total;
            let row = if idx < ns - 1 {
                idx
            } else {
                ns - 1
            };
            rows.push(row);
            m = m + 1;
        }
        proof {
            assert(c * nm + nm == (c + 1) * nm) by (nonlinear_arith);
        }
        c = c + 1;
    }
    proof {
        assert(c * nm == total);
    }
    rows
}

/// Names and shapes of the statistics that the expectation step
/// accumulates for a Gaussian-mixture model with `n_components` states,
/// `n_mix` mixture components per state and `n_features` features: the
/// expected occupancy of each mixture component and of each state, the
/// weighted sums of the observations per component, and the weighted
/// scatter in the shape of the covariance type.
pub fn sufficient_statistics_shapes(
    covariance_type: CovarianceType,
    n_components: usize,
    n_mix: usize,
    n_features: usize,
) -> (r: Vec<(String, Vec<usize>)>)
    ensures
        names_distinct(shape_table(r@)),
        shape_table(r@) == (match covariance_type {
            CovarianceType::Full => seq![
                ("post_mix_sum"@, seq![n_components, n_mix]),
                ("post_sum"@, seq![n_components]),
                ("m_n"@, seq![n_components, n_mix, n_features]),
                ("c_n"@, seq![n_components, n_mix, n_features, n_features]),
            ],
            CovarianceType::Diag => seq![
                ("post_mix_sum"@, seq![n_components, n_mix]),
                ("post_sum"@, seq![n_components]),
                ("m_n"@, seq![n_components, n_mix, n_features]),
                ("c_n"@, seq![n_components, n_mix, n_features]),
            ],
            CovarianceType::Spherical => seq![
                ("post_mix_sum"@, seq![n_components, n_mix]),
                ("post_sum"@, seq![n_components]),
                ("m_n"@, seq![n_components, n_mix, n_features]),
                ("c_n"@, seq![n_components, n_mix]),
            ],
            CovarianceType::Tied => seq![
                ("post_mix_sum"@, seq![n_components, n_mix]),
                ("post_sum"@, seq![n_components]),
                ("m_n"@, seq![n_components, n_mix, n_features]),
                ("c_n"@, seq![n_components, n_features, n_features]),
            ],
        }),
{
    proof {
        reveal_strlit("c_n");
        reveal_strlit("m_n");
        reveal_strlit("post_mix_sum");
        reveal_strlit("post_sum");
    }
    let nc = n_components;
    let nm = n_mix;
    let nf = n_features;
    match covariance_type {
        CovarianceType::Full => {
            let e0 = named_shape("post_mix_sum", vec![nc, nm]);
            assert(e0.1@ =~= seq![nc, nm]);
            let e1 = named_shape("post_sum", vec![nc]);
            assert(e1.1@ =~= seq![nc]);
            let e2 = named_shape("m_n", vec![nc, nm, nf]);
            assert(e2.1@ =~= seq![nc, nm, nf]);
            let e3 = named_shape("c_n", vec![nc, nm, nf, nf]);
            assert(e3.1@ =~= seq![nc, nm, nf, nf]);
            let r = vec![e0, e1, e2, e3];
            assert(shape_table(r@) =~= seq![
                ("post_mix_sum"@, seq![nc, nm]),
                ("post_sum"@, seq![nc]),
                ("m_n"@, seq![nc, nm, nf]),
                ("c_n"@, seq![nc, nm, nf, nf]),
            ]);
            assert forall|i: int, j: int|
                0 <= i < j < shape_table(r@).len() implies #[trigger] shape_table(r@)[i].0
                != #[trigger] shape_table(r@)[j].0 by {
                assert(i == 0 || i == 1 || i == 2 || i == 3);
                assert(j == 0 || j == 1 || j == 2 || j == 3);
                assert(shape_table(r@)[0].0 != shape_table(r@)[1].0) by {
                    assert("post_mix_sum"@.len() == 12);
                    assert("post_sum"@.len() == 8);
                }
                assert(shape_table(r@)[0].0 != shape_table(r@)[2].0) by {
                    assert("post_mix_sum"@.len() == 12);
                    assert("m_n"@.len() == 3);
                }
                assert(shape_table(r@)[0].0 != shape_table(r@)[3].0) by {
                    assert("post_mix_sum"@.len() == 12);
                    assert("c_n"@.len() == 3);
                }
                assert(shape_table(r@)[1].0 != shape_table(r@)[2].0) by {
                    assert("post_sum"@.len() == 8);
                    assert("m_n"@.len() == 3);
                }
                assert(shape_table(r@)[1].0 != shape_table(r@)[3].0) by {
                    assert("post_sum"@.len() == 8);
                    assert("c_n"@.len() == 3);
                }
                assert(shape_table(r@)[2].0 != shape_table(r@)[3].0) by {
                    assert("m_n"@[0] == 'm');
                    assert("c_n"@[0] == 'c');
                }
            }
            r
        },
        CovarianceType::Diag => {
            let e0 = named_shape("post_mix_sum", vec![nc, nm]);
            assert(e0.1@ =~= seq![nc, nm]);
            let e1 = named_shape("post_sum", vec![nc]);
            assert(e1.1@ =~= seq![nc]);
            let e2 = named_shape("m_n", vec![nc, nm, nf]);
            assert(e2.1@ =~= seq![nc, nm, nf]);
            let e3 = named_shape("c_n", vec![nc, nm, nf]);
            assert(e3.1@ =~= seq![nc, nm, nf]);
            let r = vec![e0, e1, e2, e3];
            assert(shape_table(r@) =~= seq![
                ("post_mix_sum"@, seq![nc, nm]),
                ("post_sum"@, seq![nc]),
                ("m_n"@, seq![nc, nm, nf]),
                ("c_n"@, seq![nc, nm, nf]),
            ]);
            assert forall|i: int, j: int|
                0 <= i < j < shape_table(r@).len() implies #[trigger] shape_table(r@)[i].0
                != #[trigger] shape_table(r@)[j].0 by {
                assert(i == 0 || i == 1 || i == 2 || i == 3);
                assert(j == 0 || j == 1 || j == 2 || j == 3);
                assert(shape_table(r@)[0].0 != shape_table(r@)[1].0) by {
                    assert("post_mix_sum"@.len() == 12);
                    assert("post_sum"@.len() == 8);
                }
                assert(shape_table(r@)[0].0 != shape_table(r@)[2].0) by {
                    assert("post_mix_sum"@.len() == 12);
                    assert("m_n"@.len() == 3);
                }
                assert(shape_table(r@)[0].0 != shape_table(r@)[3].0) by {
                    assert("post_mix_sum"@.len() == 12);
                    assert("c_n"@.len() == 3);
                }
                assert(shape_table(r@)[1].0 != shape_table(r@)[2].0) by {
                    assert("post_sum"@.len() == 8);
                    assert("m_n"@.len() == 3);
                }
                assert(shape_table(r@)[1].0 != shape_table(r@)[3].0) by {
                    assert("post_sum"@.len() == 8);
                    assert("c_n"@.len() == 3);
                }
                assert(shape_table(r@)[2].0 != shape_table(r@)[3].0) by {
                    assert("m_n"@[0] == 'm');
                    assert("c_n"@[0] == 'c');
                }
            }
            r
        },
        CovarianceType::Spherical => {
            let e0 = named_shape("post_mix_sum", vec![nc, nm]);
            assert(e0.1@ =~= seq![nc, nm]);
            let e1 = named_shape("post_sum", vec![nc]);
            assert(e1.1@ =~= seq![nc]);
            let e2 = named_shape("m_n", vec![nc, nm, nf]);
            assert(e2.1@ =~= seq![nc, nm, nf]);
            let e3 = named_shape("c_n", vec![nc, nm]);
            assert(e3.1@ =~= seq![nc, nm]);
            let r = vec![e0, e1, e2, e3];
            assert(shape_table(r@) =~= seq![
                ("post_mix_sum"@, seq![nc, nm]),
                ("post_sum"@, seq![nc]),
                ("m_n"@, seq![nc, nm, nf]),
                ("c_n"@, seq![nc, nm]),
            ]);
            assert forall|i: int, j: int|
                0 <= i < j < shape_table(r@).len() implies #[trigger] shape_table(r@)[i].0
                != #[trigger] shape_table(r@)[j].0 by {
                assert(i == 0 || i == 1 || i == 2 || i == 3);
                assert(j == 0 || j == 1 || j == 2 || j == 3);
                assert(shape_table(r@)[0].0 != shape_table(r@)[1].0) by {
                    assert("post_mix_sum"@.len() == 12);
                    assert("post_sum"@.len() == 8);
                }
                assert(shape_table(r@)[0].0 != shape_table(r@)[2].0) by {
                    assert("post_mix_sum"@.len() == 12);
                    assert("m_n"@.len() == 3);
                }
                assert(shape_table(r@)[0].0 != shape_table(r@)[3].0) by {
                    assert("post_mix_sum"@.len() == 12);
                    assert("c_n"@.len() == 3);
                }
                assert(shape_table(r@)[1].0 != shape_table(r@)[2].0) by {
                    assert("post_sum"@.len() == 8);
                    assert("m_n"@.len() == 3);
                }
                assert(shape_table(r@)[1].0 != shape_table(r@)[3].0) by {
                    assert("post_sum"@.len() == 8);
                    assert("c_n"@.len() == 3);
                }
                assert(shape_table(r@)[2].0 != shape_table(r@)[3].0) by {
                    assert("m_n"@[0] == 'm');
                    assert("c_n"@[0] == 'c');
                }
            }
            r
        },
        CovarianceType::Tied => {
            let e0 = named_shape("post_mix_sum", vec![nc, nm]);
            assert(e0.1@ =~= seq![nc, nm]);
            let e1 = named_shape("post_sum", vec![nc]);
            assert(e1.1@ =~= seq![nc]);
            let e2 = named_shape("m_n", vec![nc, nm, nf]);
            assert(e2.1@ =~= seq![nc, nm, nf]);
            let e3 = named_shape("c_n", vec![nc, nf, nf]);
            assert(e3.1@ =~= seq![nc, nf, nf]);
            let r = vec![e0, e1, e2, e3];
            assert(shape_table(r@) =~= seq![
                ("post_mix_sum"@, seq![nc, nm]),
                ("post_sum"@, seq![nc]),
                ("m_n"@, seq![nc, nm, nf]),
                ("c_n"@, seq![nc, nf, nf]),
            ]);
            assert forall|i: int, j: int|
                0 <= i < j < shape_table(r@).len() implies #[trigger] shape_table(r@)[i].0
                != #[trigger] shape_table(r@)[j].0 by {
                assert(i == 0 || i == 1 || i == 2 || i == 3);
                assert(j == 0 || j == 1 || j == 2 || j == 3);
                assert(shape_table(r@)[0].0 != shape_table(r@)[1].0) by {
                    assert("post_mix_sum"@.len() == 12);
                    assert("post_sum"@.len() == 8);
                }
                assert(shape_table(r@)[0].0 != shape_table(r@)[2].0) by {
                    assert("post_mix_sum"@.len() == 12);
                    assert("m_n"@.len() == 3);
                }
                assert(shape_table(r@)[0].0 != shape_table(r@)[3].0) by {
                    assert("post_mix_sum"@.len() == 12);
                    assert("c_n"@.len() == 3);
                }
                assert(shape_table(r@)[1].0 != shape_table(r@)[2].0) by {
                    assert("post_sum"@.len() == 8);
                    assert("m_n"@.len() == 3);
                }
                assert(shape_table(r@)[1].0 != shape_table(r@)[3].0) by {
                    assert("post_sum"@.len() == 8);
                    assert("c_n"@.len() == 3);
                }
                assert(shape_table(r@)[2].0 != shape_table(r@)[3].0) by {
                    assert("m_n"@[0] == 'm');
                    assert("c_n"@[0] == 'c');
                }
            }
            r
        },
    }
}

/// Whether `n_fit_scalars_per_param` is defined for these sizes: there is
/// at least one mixture component and every product it computes fits in a
/// `usize`.
pub fn n_fit_scalars_defined(
    covariance_type: CovarianceType,
    n_components: usize,
    n_mix: usize,
    n_features: usize,
) -> (r: bool)
    ensures
        r == counts_fit(covariance_type, n_components, n_mix, n_features),
{
    let nc = n_components;
    let nm = n_mix;
    let nf = n_features;
    if nm < 1 {
        return false;
    }
    let cm = match nc.checked_mul(nm) {
        None => {
            return false;
        },
        Some(v) => v,
    };
    let cmf = match cm.checked_mul(nf) {
        None => {
            return false;
        },
        Some(v) => v,
    };
    match covariance_type {
        CovarianceType::Full => match nf.checked_add(1) {
            None => false,
            Some(nf1) => cmf.checked_mul(nf1).is_some(),
        },
        CovarianceType::Tied => match nf.checked_add(1) {
            None => false,
            Some(nf1) => match nc.checked_mul(nf) {
                None => false,
                Some(cf) => cf.checked_mul(nf1).is_some(),
            },
        },
        _ => true,
    }
}

/// Whether `initial_mean_rows` is defined for these sizes: when there are
/// seeds to choose, there is data to choose them from and the row
/// arithmetic fits in a `usize`.
pub fn initial_mean_rows_defined(n_components: usize, n_mix: usize, n_samples: usize) -> (r: bool)
    ensures
        r == (n_components == 0 || n_mix == 0 || (n_samples >= 1 && n_components * n_mix
            <= usize::MAX && (n_components * n_mix - 1) * n_samples <= usize::MAX)),
{
    if n_components == 0 || n_mix == 0 {
        return true;
    }
    if n_samples < 1 {
        return false;
    }
    match n_components.checked_mul(n_mix) {
        None => false,
        Some(t) => {
            assert(t >= 1) by (nonlinear_arith)
                requires
                    t == n_components * n_mix,
                    n_components >= 1,
                    n_mix >= 1,
            ;
            (t - 1).checked_mul(n_samples).is_some()
        },
    }
}

} // verus!
